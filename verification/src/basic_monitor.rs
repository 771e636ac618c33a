//! A plain monitor: an open description of the server, with no password and no
//! record listing.

use vstd::prelude::*;
use crate::clock::{chrono_rfc3339, Timestamp};
use crate::config::VERSION;

verus! {

/// How to serve the monitor.
#[derive(Debug, Clone)]
pub struct Config {
    pub address: String,
}

/// What the monitor tells of the server.
#[derive(Debug, Clone)]
pub struct ServerResponse {
    pub ip: String,
    pub hostname: String,
    pub version: String,
    pub started_at: String,
}

/// The monitor of a worker whose records are kept in `backend`.
pub struct HttpServer<R> {
    pub config: Config,
    pub backend: R,
    pub started_at: Timestamp,
}

impl<R> HttpServer<R> {
    /// A monitor started at `started_at`.
    pub fn started(config: Config, backend: R, started_at: Timestamp) -> (r: HttpServer<R>)
        ensures
            r.config == config,
            r.backend == backend,
            r.started_at == started_at,
    {
        HttpServer { config, backend, started_at }
    }

    /// A monitor started now, if the system clock reads a time that `chrono` represents.
    pub fn new(config: Config, backend: R) -> (r: Option<HttpServer<R>>)
        ensures
            r matches Some(s) ==> {
                &&& s.config == config
                &&& s.backend == backend
                &&& s.started_at@.1 < 1_000_000_000
            },
    {
        match Timestamp::now() {
            Some(started_at) => Some(HttpServer::started(config, backend, started_at)),
            None => None,
        }
    }

    /// The answer to `GET /api/server` received on the local address `ip`.
    pub fn server(&self, ip: String) -> (s: ServerResponse)
        ensures
            s.ip@ == ip@,
            s.hostname@ == self.config.address@,
            s.version@ == VERSION@,
            s.started_at@ == chrono_rfc3339(self.started_at@.0, self.started_at@.1),
    {
        ServerResponse {
            ip,
            hostname: self.config.address.clone(),
            version: VERSION.to_owned(),
            started_at: self.started_at.to_rfc3339(),
        }
    }
}

} // verus!
