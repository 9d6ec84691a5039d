use vstd::prelude::*;
use vstd::string::StringExecFns;

verus! {

/// The value of an optional setting, or `default` when it is unset.
pub open spec fn setting_or(v: Option<String>, default: Seq<char>) -> Seq<char> {
    match v {
        Some(s) => s@,
        None => default,
    }
}

/// Port on which the trace agent listens.
pub open spec fn agent_port() -> Seq<char> {
    ":8126"@
}

/// Where spans are sent for an agent on `host`.
pub open spec fn endpoint_of(host: Seq<char>) -> Seq<char> {
    "http://"@ + host + agent_port()
}

/// The exporter settings, each one resolved to its default when unset.
#[derive(Clone, Debug)]
pub struct TelemetryConfig {
    pub service_name: String,
    pub environment: String,
    pub version: String,
    pub agent_host: String,
    /// Minimum severity of emitted log and trace records, as a filter
    /// directive.
    pub log_filter: String,
}

fn setting_or_default(v: Option<String>, default: &str) -> (r: String)
    ensures
        r@ == setting_or(v, default@),
{
    match v {
        Some(s) => s,
        None => String::from_str(default),
    }
}

impl TelemetryConfig {
    /// Resolves each setting: a given value is kept as it is; an unset one
    /// takes its default.
    pub fn resolve(
        service_name: Option<String>,
        environment: Option<String>,
        version: Option<String>,
        agent_host: Option<String>,
        log_filter: Option<String>,
    ) -> (r: TelemetryConfig)
        ensures
            r.service_name@ == setting_or(service_name, "product-service"@),
            r.environment@ == setting_or(environment, "production"@),
            r.version@ == setting_or(version, "1.0.0"@),
            r.agent_host@ == setting_or(agent_host, "127.0.0.1"@),
            r.log_filter@ == setting_or(log_filter, "info"@),
    {
        TelemetryConfig {
            service_name: setting_or_default(service_name, "product-service"),
            environment: setting_or_default(environment, "production"),
            version: setting_or_default(version, "1.0.0"),
            agent_host: setting_or_default(agent_host, "127.0.0.1"),
            log_filter: setting_or_default(log_filter, "info"),
        }
    }

    /// The trace agent's endpoint: `http://<agent_host>:8126`.
    pub fn agent_endpoint(&self) -> (r: String)
        ensures
            r@ == endpoint_of(self.agent_host@),
    {
        let mut r = String::from_str("http://");
        r.append(self.agent_host.as_str());
        r.append(":8126");
        r
    }

    /// The attributes that describe this service on every exported span:
    /// its name, deployment environment and version, in that order.
    pub fn resource_attributes(&self) -> (r: Vec<(String, String)>)
        ensures
            r@.len() == 3,
            r@[0].0@ == "service.name"@,
            r@[0].1@ == self.service_name@,
            r@[1].0@ == "deployment.environment"@,
            r@[1].1@ == self.environment@,
            r@[2].0@ == "service.version"@,
            r@[2].1@ == self.version@,
    {
        let mut r: Vec<(String, String)> = Vec::new();
        r.push((String::from_str("service.name"), self.service_name.clone()));
        r.push((String::from_str("deployment.environment"), self.environment.clone()));
        r.push((String::from_str("service.version"), self.version.clone()));
        r
    }
}

/// Whether spans go to the external collector or only to the local log,
/// decided once at start-up.
#[derive(Clone, Copy, Debug, PartialEq, Eq, Structural)]
pub enum TelemetryState {
    Exporting,
    LocalOnly,
}

impl TelemetryState {
    /// The state that follows an attempt to install the exporter pipeline:
    /// `Exporting` when it was installed, `LocalOnly` when it failed. A
    /// failure is never fatal and is not retried.
    pub fn decide<T, E>(setup: &Result<T, E>) -> (r: TelemetryState)
        ensures
            r == (if setup is Ok {
                TelemetryState::Exporting
            } else {
                TelemetryState::LocalOnly
            }),
    {
        match setup {
            Ok(_) => TelemetryState::Exporting,
            Err(_) => TelemetryState::LocalOnly,
        }
    }

    /// Whether a layer forwarding spans to the collector is installed.
    pub fn exports_spans(&self) -> (r: bool)
        ensures
            r == (*self is Exporting),
    {
        match self {
            TelemetryState::Exporting => true,
            TelemetryState::LocalOnly => false,
        }
    }

    /// Whether the local structured-log layer is installed: in both states,
    /// so operational logs stay visible whether or not export works.
    pub fn logs_locally(&self) -> (r: bool)
        ensures
            r,
    {
        true
    }

    /// Whether a warning about the failed exporter set-up is logged.
    pub fn warns_of_fallback(&self) -> (r: bool)
        ensures
            r == (*self is LocalOnly),
    {
        match self {
            TelemetryState::Exporting => false,
            TelemetryState::LocalOnly => true,
        }
    }
}

} // verus!
