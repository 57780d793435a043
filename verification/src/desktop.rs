//! The data of the desktop shell's commands, and the addresses at which the
//! shell reaches the embedded server.

use vstd::prelude::*;
use vstd::string::*;

use crate::text::{concat2, decimal, u64_to_decimal};

verus! {

/// The server status shown by the desktop shell.
#[derive(Debug)]
pub struct ServerStatus {
    pub running: bool,
    pub port: u16,
    pub uptime_secs: u64,
    pub active_connections: usize,
}

/// A provider, as the desktop shell edits it.
#[derive(Debug)]
pub struct Provider {
    pub id: String,
    pub name: String,
    pub api_base: String,
    pub api_key: String,
    pub models: Vec<String>,
    pub enabled: bool,
}

/// A routing rule, as the desktop shell edits it.
#[derive(Debug)]
pub struct Route {
    pub id: String,
    pub path: String,
    pub target_provider: String,
    pub target_model: String,
    pub enabled: bool,
}

/// A log line shown by the desktop shell.
#[derive(Debug)]
pub struct LogEntry {
    pub timestamp: String,
    pub level: String,
    pub message: String,
    pub request_id: Option<String>,
}

/// The address at which the shell fetches logs: at most `limit` entries,
/// 100 when no limit is given.
pub fn logs_url(limit: Option<usize>) -> (r: String)
    ensures
        r@ == "http://127.0.0.1:31415/api/logs?limit="@ + decimal(
            (match limit {
                Some(n) => n,
                None => 100,
            }) as nat,
        ),
{
    let n: usize = match limit {
        Some(n) => n,
        None => 100,
    };
    let digits = u64_to_decimal(n as u64);
    concat2("http://127.0.0.1:31415/api/logs?limit=", digits.as_str())
}

/// The address of the provider `id`.
pub fn provider_url(id: &str) -> (r: String)
    ensures
        r@ == "http://127.0.0.1:31415/api/providers/"@ + id@,
{
    concat2("http://127.0.0.1:31415/api/providers/", id)
}

/// The address of the routing rule `id`.
pub fn route_url(id: &str) -> (r: String)
    ensures
        r@ == "http://127.0.0.1:31415/api/routes/"@ + id@,
{
    concat2("http://127.0.0.1:31415/api/routes/", id)
}

} // verus!
