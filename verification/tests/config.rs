use newrelic_unofficial::collector::settings::Settings;
use newrelic_unofficial::config::Config;
use newrelic_unofficial::config::ConfigError;
use newrelic_unofficial::config::TransactionTracerConfig;
use newrelic_unofficial::config::UtilizationConfig;

const LICENSE: &str = "0123456789012345678901234567890123456789";

#[test]
fn test_config_new() {
    let config = Config::new("app", LICENSE);
    assert_eq!(config.app_name, "app");
    assert_eq!(config.license, LICENSE);
    assert!(config.enabled);
    assert!(config.labels.is_empty());
    assert_eq!(config.host_display_name, None);
    assert_eq!(config.host, None);
    assert!(config.utilization.detect_docker);
    assert!(config.utilization.detect_kubernetes);
    assert!(config.transaction_tracer.enabled);
}

#[test]
fn test_config_default() {
    let config = Config::default();
    assert_eq!(config.app_name, "");
    assert_eq!(config.license, "");
    assert!(config.enabled);
    assert!(config.labels.is_empty());
    assert_eq!(config.utilization, UtilizationConfig::default());
    assert_eq!(config.transaction_tracer, TransactionTracerConfig::default());
    assert_eq!(config.validate(), Err(ConfigError::LicenseLength));
}

#[test]
fn test_config_builders() {
    let config = Config::new("app", LICENSE)
        .with_app_name("other")
        .with_license("key")
        .with_enabled(false)
        .with_label("env", "test")
        .with_label("team", "a")
        .with_label("env", "prod")
        .with_host_display_name("shown")
        .with_host("collector.example.com");
    assert_eq!(config.app_name, "other");
    assert_eq!(config.license, "key");
    assert!(!config.enabled);
    assert_eq!(config.labels.len(), 2);
    assert_eq!(config.labels.get("env"), Some("prod"));
    assert_eq!(config.labels.get("team"), Some("a"));
    assert_eq!(config.labels.key_at(0), "env");
    assert_eq!(config.host_display_name.as_deref(), Some("shown"));
    assert_eq!(config.host.as_deref(), Some("collector.example.com"));
    let copy = config.clone();
    assert_eq!(copy.app_name, "other");
    assert_eq!(copy.labels.get("env"), Some("prod"));
    assert_eq!(copy.host, config.host);
}

#[test]
fn test_validate_license() {
    assert_eq!(Config::new("app", LICENSE).validate(), Ok(()));
    assert_eq!(
        Config::new("app", "").validate(),
        Err(ConfigError::LicenseLength)
    );
    assert_eq!(
        Config::new("app", &LICENSE[1..]).validate(),
        Err(ConfigError::LicenseLength)
    );
    assert_eq!(
        Config::new("app", &format!("{}0", LICENSE)).validate(),
        Err(ConfigError::LicenseLength)
    );
    // The length is counted in characters.
    let accented = format!("é{}", &LICENSE[1..]);
    assert_eq!(Config::new("app", &accented).validate(), Ok(()));
}

#[test]
fn test_validate_app_name() {
    assert_eq!(
        Config::new("", LICENSE).validate(),
        Err(ConfigError::AppNameMissing)
    );
    assert_eq!(Config::new("a;b", LICENSE).validate(), Ok(()));
    assert_eq!(Config::new("a;b;c", LICENSE).validate(), Ok(()));
    assert_eq!(
        Config::new("a;b;c;d", LICENSE).validate(),
        Err(ConfigError::AppNameLimit)
    );
    assert_eq!(
        Config::new(";;;", LICENSE).validate(),
        Err(ConfigError::AppNameLimit)
    );
    assert_eq!(Config::new("a,b,c,d", LICENSE).validate(), Ok(()));
    // The license is looked at first.
    assert_eq!(
        Config::new("", "short").validate(),
        Err(ConfigError::LicenseLength)
    );
}

#[test]
fn test_validate_disabled() {
    let disabled = |app: &str, license: &str| Config::new(app, license).with_enabled(false);
    assert_eq!(disabled("", "").validate(), Ok(()));
    assert_eq!(disabled("", LICENSE).validate(), Ok(()));
    assert_eq!(disabled("a;b;c;d", LICENSE).validate(), Ok(()));
    assert_eq!(
        disabled("app", "short").validate(),
        Err(ConfigError::LicenseLength)
    );
}

#[test]
fn test_settings() {
    let mut config = Config::new("app", LICENSE)
        .with_label("k", "v")
        .with_host_display_name("shown");
    config.utilization.detect_docker = false;
    config.transaction_tracer.enabled = false;
    let settings = Settings::new(&config);
    assert_eq!(settings.app_name, "app");
    assert!(settings.enabled);
    assert_eq!(settings.labels.get("k"), Some("v"));
    assert_eq!(settings.host_display_name.as_deref(), Some("shown"));
    assert_eq!(settings.host, None);
    assert!(!settings.transaction_tracer.enabled);
    assert!(!settings.utilization.detect_docker);
    assert!(settings.utilization.detect_kubernetes);
    assert_eq!(
        settings.unofficial_agent_repository,
        "https://github.com/qnighy/newrelic-unofficial-rust"
    );
}
