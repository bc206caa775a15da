//! Service health reports.
use vstd::prelude::*;
use crate::text::{append_str, chars_of, string_of};

verus! {

/// Outcome of a health probe.
#[derive(Debug, Clone, PartialEq)]
pub enum HealthStatus {
    Healthy,
    Warning(String),
    Critical(String),
}

/// The health of one named service.
#[derive(Debug, Clone, PartialEq)]
pub struct ServiceStatus {
    pub name: String,
    pub status: HealthStatus,
}

impl ServiceStatus {
    /// Builds a status report for the named service.
    pub fn new(name: &str, status: HealthStatus) -> (r: Self)
        ensures
            r.name@ == name@,
            r.status == status,
    {
        ServiceStatus { name: String::from_str(name), status }
    }
}


/// The outcome of asking a service over HTTP: whether it answered with success
/// and the status it gave, or the error that stopped the request.
#[derive(Debug, Clone, PartialEq)]
pub enum Probe {
    Answered { success: bool, status: String },
    Failed(String),
}

/// `a` followed by `b`.
fn text2(a: &str, b: &str) -> (r: String)
    ensures
        r@ == a@ + b@,
{
    let mut t: Vec<char> = chars_of(a);
    append_str(&mut t, b);
    string_of(t.as_slice())
}

/// The model server's health: it is needed, so any failure is critical.
pub fn ollama_status(probe: &Probe) -> (r: ServiceStatus)
    ensures
        r.name@ == "Ollama"@,
        match *probe {
            Probe::Answered { success: true, .. } => r.status == HealthStatus::Healthy,
            Probe::Answered { success: false, status } => r.status matches HealthStatus::Critical(m)
                && m@ == "API Error: "@ + status@,
            Probe::Failed(e) => r.status matches HealthStatus::Critical(m) && m@ == "Connection Failed: "@ + e@,
        },
{
    let status = match probe {
        Probe::Answered { success, status } => {
            if *success { HealthStatus::Healthy } else { HealthStatus::Critical(text2("API Error: ", status.as_str())) }
        },
        Probe::Failed(e) => HealthStatus::Critical(text2("Connection Failed: ", e.as_str())),
    };
    ServiceStatus::new("Ollama", status)
}

/// The search service's health: it is optional, so a failure is a warning.
pub fn searxng_status(probe: &Probe) -> (r: ServiceStatus)
    ensures
        r.name@ == "SearXNG"@,
        match *probe {
            Probe::Answered { success: true, .. } => r.status == HealthStatus::Healthy,
            Probe::Answered { success: false, status } => r.status matches HealthStatus::Warning(m)
                && m@ == "Status: "@ + status@,
            Probe::Failed(e) => r.status matches HealthStatus::Warning(m) && m@ == "Not Reachable: "@ + e@,
        },
{
    let status = match probe {
        Probe::Answered { success, status } => {
            if *success { HealthStatus::Healthy } else { HealthStatus::Warning(text2("Status: ", status.as_str())) }
        },
        Probe::Failed(e) => HealthStatus::Warning(text2("Not Reachable: ", e.as_str())),
    };
    ServiceStatus::new("SearXNG", status)
}

/// A command-line tool's health, from whether it ran (`None` when it could not
/// be started) and whether it succeeded.
pub fn tool_status(command: &str, ran: Option<bool>) -> (r: ServiceStatus)
    ensures
        r.name@ == command@,
        match ran {
            Some(true) => r.status == HealthStatus::Healthy,
            Some(false) => r.status matches HealthStatus::Warning(m) && m@ == "Command failed"@,
            None => r.status matches HealthStatus::Warning(m) && m@ == "Not installed"@,
        },
{
    let status = match ran {
        Some(true) => HealthStatus::Healthy,
        Some(false) => HealthStatus::Warning(String::from_str("Command failed")),
        None => HealthStatus::Warning(String::from_str("Not installed")),
    };
    ServiceStatus::new(command, status)
}

} // verus!
