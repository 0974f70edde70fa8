//! The settings of the agent as the collector is told them.

use vstd::prelude::*;
use vstd::string::StringExecFns;
use crate::config::clone_text;
use crate::config::Config;
use crate::config::ConfigView;
use crate::config::TransactionTracerConfig;
use crate::config::UtilizationConfig;
use crate::string_map::StringMap;

verus! {

/// Where this agent comes from.
pub const AGENT_REPOSITORY: &'static str = "https://github.com/qnighy/newrelic-unofficial-rust";

/// The settings shown for an agent. The license is not among them.
pub struct Settings {
    pub app_name: String,
    pub enabled: bool,
    pub labels: StringMap,
    pub host_display_name: Option<String>,
    pub transaction_tracer: TransactionTracerSettings,
    pub utilization: UtilizationSettings,
    pub host: Option<String>,
    /// Tells the collector which agent this is.
    pub unofficial_agent_repository: String,
}

/// The settings of the transaction tracer.
#[derive(Debug, Clone, Copy, PartialEq, Eq, Structural)]
pub struct TransactionTracerSettings {
    pub enabled: bool,
}

/// The settings of host detection.
#[derive(Debug, Clone, Copy, PartialEq, Eq, Structural)]
pub struct UtilizationSettings {
    pub detect_docker: bool,
    pub detect_kubernetes: bool,
}

impl Settings {
    /// Whether these are the settings that `config` amounts to.
    pub open spec fn describes(&self, config: ConfigView) -> bool {
        &&& self.app_name@ == config.app_name
        &&& self.enabled == config.enabled
        &&& self.labels@ == config.labels
        &&& self.host_display_name.deep_view() == config.host_display_name
        &&& self.transaction_tracer.enabled == config.transaction_tracer.enabled
        &&& self.utilization.detect_docker == config.utilization.detect_docker
        &&& self.utilization.detect_kubernetes == config.utilization.detect_kubernetes
        &&& self.host.deep_view() == config.host
        &&& self.unofficial_agent_repository@ == AGENT_REPOSITORY@
    }

    /// The settings that `config` amounts to.
    pub fn new(config: &Config) -> (settings: Settings)
        ensures
            settings.describes(config@),
    {
        Settings {
            app_name: config.app_name.clone(),
            enabled: config.enabled,
            labels: config.labels.clone(),
            host_display_name: clone_text(&config.host_display_name),
            transaction_tracer: TransactionTracerSettings::new(&config.transaction_tracer),
            utilization: UtilizationSettings::new(&config.utilization),
            host: clone_text(&config.host),
            unofficial_agent_repository: String::from_str(AGENT_REPOSITORY),
        }
    }
}

impl TransactionTracerSettings {
    /// The settings that `config` amounts to.
    pub fn new(config: &TransactionTracerConfig) -> (settings: TransactionTracerSettings)
        ensures
            settings.enabled == config.enabled,
    {
        TransactionTracerSettings { enabled: config.enabled }
    }
}

impl UtilizationSettings {
    /// The settings that `config` amounts to.
    pub fn new(config: &UtilizationConfig) -> (settings: UtilizationSettings)
        ensures
            settings.detect_docker == config.detect_docker,
            settings.detect_kubernetes == config.detect_kubernetes,
    {
        UtilizationSettings {
            detect_docker: config.detect_docker,
            detect_kubernetes: config.detect_kubernetes,
        }
    }
}

} // verus!
