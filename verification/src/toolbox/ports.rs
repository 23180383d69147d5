//! The well-known ports, their services, and the ports that a scan tries.

use vstd::prelude::*;
use crate::toolbox::types::ScanConfig;

verus! {

/// The ports that a scan tries when none are given, grouped by kind of
/// service: web, databases, remote shells, mail, remote desktop, message
/// queues, others.
pub open spec fn common_port_list() -> Seq<u16> {
    seq![
        80u16, 443, 8080, 8443, 8000, 8888, 3000, 3001, 5000, 5173, 4200,
        3306, 5432, 27017, 6379, 9200, 5984,
        21, 22, 23, 2222,
        25, 110, 143, 465, 587, 993, 995,
        3389, 5900, 5901,
        5672, 15672, 9092, 2181,
        53, 67, 68, 69, 161, 162, 389, 636, 1433, 1521, 11211,
    ]
}

/// The well-known ports, in the order of [`common_port_list`].
pub fn common_ports() -> (ports: Vec<u16>)
    ensures
        ports@ == common_port_list(),
{
    let ports: Vec<u16> = vec![
        80u16, 443, 8080, 8443, 8000, 8888, 3000, 3001, 5000, 5173, 4200,
        3306, 5432, 27017, 6379, 9200, 5984,
        21, 22, 23, 2222,
        25, 110, 143, 465, 587, 993, 995,
        3389, 5900, 5901,
        5672, 15672, 9092, 2181,
        53, 67, 68, 69, 161, 162, 389, 636, 1433, 1521, 11211,
    ];
    assert(ports@ =~= common_port_list());
    ports
}

/// The ports from `start` to `end`, both included, in rising order.
pub open spec fn port_range(start: u16, end: u16) -> Seq<u16>
    recommends
        start <= end,
{
    Seq::new((end - start + 1) as nat, |i: int| (start + i) as u16)
}

/// The ports that a scan tries: the listed ports where the list is not
/// empty; else the range where both ends are given and in order; else the
/// well-known ports.
pub open spec fn ports_to_scan(config: ScanConfig) -> Seq<u16> {
    if config.ports is Some && config.ports->0@.len() > 0 {
        config.ports->0@
    } else if config.port_start is Some && config.port_end is Some
        && config.port_start->0 <= config.port_end->0 {
        port_range(config.port_start->0, config.port_end->0)
    } else {
        common_port_list()
    }
}

/// The ports that a scan with this configuration tries: see
/// [`ports_to_scan`].
pub fn determine_ports(config: &ScanConfig) -> (ports: Vec<u16>)
    ensures
        ports@ == ports_to_scan(*config),
{
    match &config.ports {
        Some(listed) => {
            if listed.len() > 0 {
                let mut ports: Vec<u16> = Vec::new();
                let mut i: usize = 0;
                while i < listed.len()
                    invariant
                        i <= listed.len(),
                        ports@ == listed@.take(i as int),
                    decreases listed.len() - i,
                {
                    ports.push(listed[i]);
                    assert(listed@.take(i + 1) =~= listed@.take(i as int).push(listed@[i as int]));
                    i += 1;
                }
                assert(listed@.take(listed@.len() as int) =~= listed@);
                return ports;
            }
        },
        None => {},
    }
    match (config.port_start, config.port_end) {
        (Some(start), Some(end)) => {
            if start <= end {
                let mut ports: Vec<u16> = Vec::new();
                let mut port = start;
                ports.push(port);
                while port < end
                    invariant
                        start <= port <= end,
                        ports@.len() == port - start + 1,
                        forall|k: int| 0 <= k < ports@.len() ==> ports@[k] == (start + k) as u16,
                    decreases end - port,
                {
                    port += 1;
                    ports.push(port);
                }
                assert(ports@ =~= port_range(start, end));
                return ports;
            }
        },
        _ => {},
    }
    common_ports()
}

/// The service that conventionally listens on `port`, if it has a name here.
pub open spec fn service_name(port: u16) -> Option<Seq<char>> {
    if port == 20 {
        Some("FTP-Data"@)
    } else if port == 21 {
        Some("FTP"@)
    } else if port == 22 {
        Some("SSH"@)
    } else if port == 23 {
        Some("Telnet"@)
    } else if port == 25 {
        Some("SMTP"@)
    } else if port == 53 {
        Some("DNS"@)
    } else if port == 67 || port == 68 {
        Some("DHCP"@)
    } else if port == 69 {
        Some("TFTP"@)
    } else if port == 80 {
        Some("HTTP"@)
    } else if port == 110 {
        Some("POP3"@)
    } else if port == 119 {
        Some("NNTP"@)
    } else if port == 123 {
        Some("NTP"@)
    } else if port == 143 {
        Some("IMAP"@)
    } else if port == 161 || port == 162 {
        Some("SNMP"@)
    } else if port == 389 {
        Some("LDAP"@)
    } else if port == 443 {
        Some("HTTPS"@)
    } else if port == 445 {
        Some("SMB"@)
    } else if port == 465 {
        Some("SMTPS"@)
    } else if port == 514 {
        Some("Syslog"@)
    } else if port == 587 {
        Some("SMTP-Submission"@)
    } else if port == 636 {
        Some("LDAPS"@)
    } else if port == 993 {
        Some("IMAPS"@)
    } else if port == 995 {
        Some("POP3S"@)
    } else if port == 1433 {
        Some("MSSQL"@)
    } else if port == 1521 {
        Some("Oracle"@)
    } else if port == 2181 {
        Some("ZooKeeper"@)
    } else if port == 2222 {
        Some("SSH-Alt"@)
    } else if port == 3000 || port == 5000 || port == 8000 || port == 8888 {
        Some("Dev-Server"@)
    } else if port == 3306 {
        Some("MySQL"@)
    } else if port == 3389 {
        Some("RDP"@)
    } else if port == 5173 {
        Some("Vite"@)
    } else if port == 5432 {
        Some("PostgreSQL"@)
    } else if port == 5672 {
        Some("RabbitMQ"@)
    } else if port == 5900 || port == 5901 {
        Some("VNC"@)
    } else if port == 5984 {
        Some("CouchDB"@)
    } else if port == 6379 {
        Some("Redis"@)
    } else if port == 8080 {
        Some("HTTP-Proxy"@)
    } else if port == 8443 {
        Some("HTTPS-Alt"@)
    } else if port == 9092 {
        Some("Kafka"@)
    } else if port == 9200 {
        Some("Elasticsearch"@)
    } else if port == 11211 {
        Some("Memcached"@)
    } else if port == 15672 {
        Some("RabbitMQ-Mgmt"@)
    } else if port == 27017 {
        Some("MongoDB"@)
    } else {
        None
    }
}

/// The conventional service name of `port`, or `None`.
pub fn port_service_name(port: u16) -> (name: Option<&'static str>)
    ensures
        name is Some <==> service_name(port) is Some,
        name is Some ==> name->0@ == service_name(port)->0,
{
    match port {
        20 => Some("FTP-Data"),
        21 => Some("FTP"),
        22 => Some("SSH"),
        23 => Some("Telnet"),
        25 => Some("SMTP"),
        53 => Some("DNS"),
        67 | 68 => Some("DHCP"),
        69 => Some("TFTP"),
        80 => Some("HTTP"),
        110 => Some("POP3"),
        119 => Some("NNTP"),
        123 => Some("NTP"),
        143 => Some("IMAP"),
        161 | 162 => Some("SNMP"),
        389 => Some("LDAP"),
        443 => Some("HTTPS"),
        445 => Some("SMB"),
        465 => Some("SMTPS"),
        514 => Some("Syslog"),
        587 => Some("SMTP-Submission"),
        636 => Some("LDAPS"),
        993 => Some("IMAPS"),
        995 => Some("POP3S"),
        1433 => Some("MSSQL"),
        1521 => Some("Oracle"),
        2181 => Some("ZooKeeper"),
        2222 => Some("SSH-Alt"),
        3000 => Some("Dev-Server"),
        3306 => Some("MySQL"),
        3389 => Some("RDP"),
        5000 => Some("Dev-Server"),
        5173 => Some("Vite"),
        5432 => Some("PostgreSQL"),
        5672 => Some("RabbitMQ"),
        5900 | 5901 => Some("VNC"),
        5984 => Some("CouchDB"),
        6379 => Some("Redis"),
        8000 => Some("Dev-Server"),
        8080 => Some("HTTP-Proxy"),
        8443 => Some("HTTPS-Alt"),
        8888 => Some("Dev-Server"),
        9092 => Some("Kafka"),
        9200 => Some("Elasticsearch"),
        11211 => Some("Memcached"),
        15672 => Some("RabbitMQ-Mgmt"),
        27017 => Some("MongoDB"),
        _ => None,
    }
}

} // verus!
