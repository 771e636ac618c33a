//! The daemon's configuration file, as read at start.

use vstd::prelude::*;
use crate::consumer::StompConfig;
use crate::monitor::Config as MonitorConfig;
use crate::record_backend::MysqlConfig;

verus! {

/// The version the monitor reports.
pub const VERSION: &'static str = "0.5.0";

/// Where and how much to log.
#[derive(Debug, Clone)]
pub struct LogConfig {
    pub directory: String,
    pub levels: String,
}

/// The whole configuration of the daemon.
#[derive(Debug, Clone)]
pub struct Config {
    pub log: LogConfig,
    pub threads: u32,
    pub stomp: StompConfig,
    pub mysql: MysqlConfig,
    pub monitor: MonitorConfig,
}

} // verus!
