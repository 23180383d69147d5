//! The data that the toolbox features carry.

use vstd::prelude::*;
use crate::text::{clone_opt_string, opt_view, str_eq};

verus! {

/// What to scan: a target address and either a list of ports or a range.
#[derive(Debug, Clone)]
pub struct ScanConfig {
    pub target: String,
    /// Ports to scan; the well-known ports when absent.
    pub ports: Option<Vec<u16>>,
    pub port_start: Option<u16>,
    pub port_end: Option<u16>,
    /// Connect timeout in milliseconds.
    pub timeout_ms: Option<u64>,
    pub concurrency: Option<usize>,
}

/// One scanned port.
#[derive(Debug, Clone)]
pub struct ScanResult {
    pub ip: String,
    pub port: u16,
    /// `open`, `closed` or `filtered`.
    pub status: String,
    pub service: Option<String>,
}

/// How far a scan has come.
#[derive(Debug, Clone)]
pub struct ScanProgress {
    pub scanned: u32,
    pub total: u32,
    pub open_ports: Vec<ScanResult>,
}

/// A file download and its progress.
#[derive(Debug, Clone)]
pub struct DownloadTask {
    pub id: String,
    pub url: String,
    pub save_path: String,
    pub file_name: String,
    pub total_size: u64,
    pub downloaded_size: u64,
    /// `pending`, `downloading`, `paused`, `completed` or `failed`.
    pub status: String,
    /// Bytes per second.
    pub speed: u64,
    pub error: Option<String>,
    pub created_at: String,
    pub updated_at: String,
}

/// A request to download a file.
#[derive(Debug, Clone)]
pub struct DownloadConfig {
    pub url: String,
    pub save_dir: Option<String>,
    pub file_name: Option<String>,
    pub max_retries: Option<u32>,
}

/// A progress notice of a download.
#[derive(Debug, Clone)]
pub struct DownloadProgress {
    pub id: String,
    pub downloaded: u64,
    pub total: u64,
    pub speed: u64,
    pub status: String,
}

/// A filter over running processes.
#[derive(Debug, Clone)]
pub struct ProcessFilter {
    pub port: Option<u16>,
    pub name: Option<String>,
    pub pid: Option<u32>,
}

/// Whether a forwarding rule relays traffic.
#[derive(Debug, Clone, Copy, PartialEq, Eq, Structural)]
pub enum RuleStatus {
    Stopped,
    Running,
}

impl RuleStatus {
    /// The word under which the status is stored and shown.
    pub open spec fn text(self) -> Seq<char> {
        match self {
            RuleStatus::Stopped => "stopped"@,
            RuleStatus::Running => "running"@,
        }
    }

    /// The status that a stored word stands for: running for `running`,
    /// stopped for every other word.
    pub open spec fn of_text(word: Seq<char>) -> RuleStatus {
        if word == "running"@ {
            RuleStatus::Running
        } else {
            RuleStatus::Stopped
        }
    }

    /// The word under which the status is stored and shown.
    pub fn as_str(self) -> (word: &'static str)
        ensures
            word@ == self.text(),
    {
        match self {
            RuleStatus::Stopped => "stopped",
            RuleStatus::Running => "running",
        }
    }

    /// The status that a stored word stands for: see
    /// [`of_text`](Self::of_text).
    pub fn from_text(word: &str) -> (status: RuleStatus)
        ensures
            status == RuleStatus::of_text(word@),
    {
        if str_eq(word, "running") {
            RuleStatus::Running
        } else {
            RuleStatus::Stopped
        }
    }
}

/// A forwarding rule: traffic to `local_port` is relayed to
/// `remote_host:remote_port`. The last three numbers are the statistics last
/// copied from the rule's controller.
#[derive(Debug)]
pub struct ForwardRule {
    pub id: String,
    pub name: String,
    pub local_port: u16,
    pub remote_host: String,
    pub remote_port: u16,
    /// A document path below the forwarded service, for quick access.
    pub doc_path: Option<String>,
    pub status: RuleStatus,
    pub connections: u32,
    pub bytes_in: u64,
    pub bytes_out: u64,
    pub created_at: String,
}

/// The mathematical value of a [`ForwardRule`].
pub struct ForwardRuleView {
    pub id: Seq<char>,
    pub name: Seq<char>,
    pub local_port: u16,
    pub remote_host: Seq<char>,
    pub remote_port: u16,
    pub doc_path: Option<Seq<char>>,
    pub status: RuleStatus,
    pub connections: u32,
    pub bytes_in: u64,
    pub bytes_out: u64,
    pub created_at: Seq<char>,
}

impl View for ForwardRule {
    type V = ForwardRuleView;

    open spec fn view(&self) -> ForwardRuleView {
        ForwardRuleView {
            id: self.id@,
            name: self.name@,
            local_port: self.local_port,
            remote_host: self.remote_host@,
            remote_port: self.remote_port,
            doc_path: opt_view(self.doc_path),
            status: self.status,
            connections: self.connections,
            bytes_in: self.bytes_in,
            bytes_out: self.bytes_out,
            created_at: self.created_at@,
        }
    }
}

impl Clone for ForwardRule {
    fn clone(&self) -> (r: Self)
        ensures
            r == *self,
    {
        ForwardRule {
            id: self.id.clone(),
            name: self.name.clone(),
            local_port: self.local_port,
            remote_host: self.remote_host.clone(),
            remote_port: self.remote_port,
            doc_path: clone_opt_string(&self.doc_path),
            status: self.status,
            connections: self.connections,
            bytes_in: self.bytes_in,
            bytes_out: self.bytes_out,
            created_at: self.created_at.clone(),
        }
    }
}

/// What a caller gives to create or change a forwarding rule.
#[derive(Debug)]
pub struct ForwardRuleInput {
    pub name: String,
    pub local_port: u16,
    pub remote_host: String,
    pub remote_port: u16,
    pub doc_path: Option<String>,
}

impl Clone for ForwardRuleInput {
    fn clone(&self) -> (r: Self)
        ensures
            r == *self,
    {
        ForwardRuleInput {
            name: self.name.clone(),
            local_port: self.local_port,
            remote_host: self.remote_host.clone(),
            remote_port: self.remote_port,
            doc_path: clone_opt_string(&self.doc_path),
        }
    }
}

/// The live statistics of one rule.
#[derive(Debug, Clone)]
pub struct ForwardStats {
    pub rule_id: String,
    pub connections: u32,
    pub bytes_in: u64,
    pub bytes_out: u64,
}

/// A proxy rule of a static file server.
#[derive(Debug, Clone)]
pub struct ProxyConfig {
    pub prefix: String,
    pub target: String,
}

/// A static file server.
#[derive(Debug, Clone)]
pub struct ServerConfig {
    pub id: String,
    pub name: String,
    pub port: u16,
    pub root_dir: String,
    pub cors: bool,
    pub gzip: bool,
    pub cache_control: Option<String>,
    /// The URL prefix under which files are served; `/` for none.
    pub url_prefix: String,
    pub index_page: Option<String>,
    pub proxies: Vec<ProxyConfig>,
    /// `running` or `stopped`.
    pub status: String,
    pub created_at: String,
}

/// What a caller gives to create a static file server.
#[derive(Debug, Clone)]
pub struct ServerConfigInput {
    pub name: String,
    pub port: u16,
    pub root_dir: String,
    pub cors: Option<bool>,
    pub gzip: Option<bool>,
    pub cache_control: Option<String>,
    pub url_prefix: Option<String>,
    pub index_page: Option<String>,
    pub proxies: Option<Vec<ProxyConfig>>,
}

/// One request served by a static file server.
#[derive(Debug, Clone)]
pub struct AccessLog {
    pub timestamp: String,
    pub method: String,
    pub path: String,
    pub status: u16,
    pub duration_ms: u64,
    pub client_ip: String,
}

} // verus!
