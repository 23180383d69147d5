//! Data carried by the toolbox features, the table of well-known ports, and
//! the ids and times that the engines give to what they create.

pub mod ids;
pub mod ports;
pub mod types;

pub use ids::{
    current_time, default_stopped, generate_id, id_from_nanos, id_from_reading, time_text_from,
    unused_id_among, IdSource,
};
pub use ports::{common_ports, determine_ports, port_service_name};
pub use types::{
    AccessLog, DownloadConfig, DownloadProgress, DownloadTask, ForwardRule, ForwardRuleInput,
    ForwardRuleView, ForwardStats, ProcessFilter, ProxyConfig, RuleStatus, ScanConfig, ScanProgress,
    ScanResult, ServerConfig, ServerConfigInput,
};
