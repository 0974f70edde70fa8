//! What the embedding program tells the agent before it starts.

use vstd::prelude::*;
use vstd::string::StrSliceExecFns;
use vstd::string::StringExecFns;
use crate::agent::Agent;
use crate::agent::Phase;
use crate::string_map::StringMap;
use crate::text::split;
use crate::text::split_text;

verus! {

/// The length of every license key, in characters.
pub const LICENSE_LENGTH: usize = 40;

/// How many names, one per rollup, an application may go by.
pub const APP_NAME_LIMIT: usize = 3;

/// Why a configuration cannot be used.
#[derive(Debug, Clone, Copy, PartialEq, Eq, Structural)]
#[non_exhaustive]
pub enum ConfigError {
    /// The license has not `LICENSE_LENGTH` characters.
    LicenseLength,
    /// There is no application name.
    AppNameMissing,
    /// The application name lists more than `APP_NAME_LIMIT` names.
    AppNameLimit,
}

/// What to find out about the host.
#[derive(Debug, Clone, Copy, PartialEq, Eq, Structural)]
#[non_exhaustive]
pub struct UtilizationConfig {
    pub detect_docker: bool,
    pub detect_kubernetes: bool,
}

/// Whether to keep traces of slow transactions.
#[derive(Debug, Clone, Copy, PartialEq, Eq, Structural)]
#[non_exhaustive]
pub struct TransactionTracerConfig {
    pub enabled: bool,
}

/// The configuration of an agent. It does not change once the agent runs.
#[derive(Debug)]
#[non_exhaustive]
pub struct Config {
    /// The name of the application; up to three names, separated by `;`.
    pub app_name: String,
    pub license: String,
    /// A disabled agent never connects.
    pub enabled: bool,
    /// Labels sent at connect.
    pub labels: StringMap,
    /// The name to show for this host.
    pub host_display_name: Option<String>,
    pub utilization: UtilizationConfig,
    pub transaction_tracer: TransactionTracerConfig,
    /// The collector to talk to, where it is not the one the license names.
    pub host: Option<String>,
}

/// A `Config` as plain values.
pub struct ConfigView {
    pub app_name: Seq<char>,
    pub license: Seq<char>,
    pub enabled: bool,
    pub labels: Seq<(Seq<char>, Seq<char>)>,
    pub host_display_name: Option<Seq<char>>,
    pub utilization: UtilizationConfig,
    pub transaction_tracer: TransactionTracerConfig,
    pub host: Option<Seq<char>>,
}

impl View for Config {
    type V = ConfigView;

    open spec fn view(&self) -> ConfigView {
        ConfigView {
            app_name: self.app_name@,
            license: self.license@,
            enabled: self.enabled,
            labels: self.labels@,
            host_display_name: self.host_display_name.deep_view(),
            utilization: self.utilization,
            transaction_tracer: self.transaction_tracer,
            host: self.host.deep_view(),
        }
    }
}

impl ConfigView {
    /// The configuration that names an application and a license and leaves
    /// everything else as it comes.
    pub open spec fn initial(app_name: Seq<char>, license: Seq<char>) -> ConfigView {
        ConfigView {
            app_name,
            license,
            enabled: true,
            labels: Seq::empty(),
            host_display_name: None,
            utilization: UtilizationConfig { detect_docker: true, detect_kubernetes: true },
            transaction_tracer: TransactionTracerConfig { enabled: true },
            host: None,
        }
    }

    /// What `validate` answers. An enabled agent needs a license of
    /// `LICENSE_LENGTH` characters and an application name of one to
    /// `APP_NAME_LIMIT` names; a disabled one may also have no license, and
    /// its name is not looked at.
    pub open spec fn validity(self) -> Result<(), ConfigError> {
        if self.enabled {
            if self.license.len() != LICENSE_LENGTH {
                Err(ConfigError::LicenseLength)
            } else if self.app_name.len() == 0 {
                Err(ConfigError::AppNameMissing)
            } else if split(self.app_name, ';').len() > APP_NAME_LIMIT {
                Err(ConfigError::AppNameLimit)
            } else {
                Ok(())
            }
        } else if self.license.len() != LICENSE_LENGTH && self.license.len() != 0 {
            Err(ConfigError::LicenseLength)
        } else {
            Ok(())
        }
    }
}

impl Default for UtilizationConfig {
    fn default() -> (config: UtilizationConfig)
        ensures
            config == (UtilizationConfig { detect_docker: true, detect_kubernetes: true }),
    {
        UtilizationConfig { detect_docker: true, detect_kubernetes: true }
    }
}

impl Default for TransactionTracerConfig {
    fn default() -> (config: TransactionTracerConfig)
        ensures
            config == (TransactionTracerConfig { enabled: true }),
    {
        TransactionTracerConfig { enabled: true }
    }
}

impl Default for Config {
    fn default() -> (config: Config)
        ensures
            config@ == ConfigView::initial(Seq::empty(), Seq::empty()),
    {
        Config {
            app_name: String::new(),
            license: String::new(),
            enabled: true,
            labels: StringMap::new(),
            host_display_name: None,
            utilization: UtilizationConfig { detect_docker: true, detect_kubernetes: true },
            transaction_tracer: TransactionTracerConfig { enabled: true },
            host: None,
        }
    }
}

impl Clone for Config {
    fn clone(&self) -> (copy: Self)
        ensures
            copy@ == self@,
    {
        Config {
            app_name: self.app_name.clone(),
            license: self.license.clone(),
            enabled: self.enabled,
            labels: self.labels.clone(),
            host_display_name: clone_text(&self.host_display_name),
            utilization: self.utilization,
            transaction_tracer: self.transaction_tracer,
            host: clone_text(&self.host),
        }
    }
}

/// A copy of an optional text.
pub fn clone_text(text: &Option<String>) -> (copy: Option<String>)
    ensures
        copy == *text,
{
    match text {
        Some(t) => Some(t.clone()),
        None => None,
    }
}

impl Config {
    /// The configuration of the application `app_name` under `license`.
    pub fn new(app_name: &str, license: &str) -> (config: Config)
        ensures
            config@ == ConfigView::initial(app_name@, license@),
    {
        Config {
            app_name: String::from_str(app_name),
            license: String::from_str(license),
            enabled: true,
            labels: StringMap::new(),
            host_display_name: None,
            utilization: UtilizationConfig { detect_docker: true, detect_kubernetes: true },
            transaction_tracer: TransactionTracerConfig { enabled: true },
            host: None,
        }
    }

    /// Whether an agent can run on this configuration, and if not, why.
    pub fn validate(&self) -> (outcome: Result<(), ConfigError>)
        ensures
            outcome == self@.validity(),
    {
        let license_len = self.license.as_str().unicode_len();
        if self.enabled {
            if license_len != LICENSE_LENGTH {
                return Err(ConfigError::LicenseLength);
            }
            if self.app_name.as_str().is_empty() {
                return Err(ConfigError::AppNameMissing);
            }
            let names = split_text(self.app_name.as_str(), ';');
            if names.len() > APP_NAME_LIMIT {
                return Err(ConfigError::AppNameLimit);
            }
        } else if license_len != LICENSE_LENGTH && license_len != 0 {
            return Err(ConfigError::LicenseLength);
        }
        Ok(())
    }

    /// The agent for this configuration, if an agent can run on it. The
    /// agent is not started yet; a disabled one never will be.
    pub fn start(&self) -> (outcome: Result<Agent, ConfigError>)
        ensures
            match outcome {
                Ok(agent) => {
                    &&& self@.validity() is Ok
                    &&& agent.config@ == self@
                    &&& agent.attempt == 0
                    &&& if self.enabled {
                        agent.state is Init && agent.phase == Phase::Idle
                    } else {
                        agent.state is Dead && agent.phase == Phase::Stopped
                    }
                },
                Err(error) => self@.validity() == Err::<(), ConfigError>(error),
            },
    {
        match self.validate() {
            Ok(_) => Ok(Agent::new(self)),
            Err(error) => Err(error),
        }
    }

    /// The same configuration for the application `app_name`.
    pub fn with_app_name(self, app_name: &str) -> (config: Config)
        ensures
            config@ == (ConfigView { app_name: app_name@, ..self@ }),
    {
        let mut config = self;
        config.app_name = String::from_str(app_name);
        config
    }

    /// The same configuration under `license`.
    pub fn with_license(self, license: &str) -> (config: Config)
        ensures
            config@ == (ConfigView { license: license@, ..self@ }),
    {
        let mut config = self;
        config.license = String::from_str(license);
        config
    }

    /// The same configuration, enabled or not.
    pub fn with_enabled(self, enabled: bool) -> (config: Config)
        ensures
            config@ == (ConfigView { enabled, ..self@ }),
    {
        let mut config = self;
        config.enabled = enabled;
        config
    }

    /// The same configuration with the label `key` set to `value`.
    pub fn with_label(self, key: &str, value: &str) -> (config: Config)
        ensures
            config@ == (ConfigView {
                labels: crate::assoc::put(self@.labels, key@, value@),
                ..self@
            }),
    {
        let mut config = self;
        config.labels.insert(key, value);
        config
    }

    /// The same configuration with `host_display_name` shown for this host.
    pub fn with_host_display_name(self, host_display_name: &str) -> (config: Config)
        ensures
            config@ == (ConfigView { host_display_name: Some(host_display_name@), ..self@ }),
    {
        let mut config = self;
        config.host_display_name = Some(String::from_str(host_display_name));
        config
    }

    /// The same configuration with `host` as the collector to talk to.
    pub fn with_host(self, host: &str) -> (config: Config)
        ensures
            config@ == (ConfigView { host: Some(host@), ..self@ }),
    {
        let mut config = self;
        config.host = Some(String::from_str(host));
        config
    }
}

} // verus!
