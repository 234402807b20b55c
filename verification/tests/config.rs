use std::any::Any;

use datafusion::common::config::{
    ConfigEntry, ConfigExtension, ConfigField, ConfigOptions, ExtensionOptions};
use datafusion::error::DataFusionError;
use iceberg_datafusion::config::{
    IcebergConfig, IcebergScanConfig, PartitioningOverride, PartitioningOverrides, PREFIX,
};
use iceberg_datafusion::error::PlanError;

fn to_outside(error: PlanError) -> DataFusionError {
    match error {
        PlanError::Configuration(message) => DataFusionError::Configuration(message),
        PlanError::Reported(e) => e,
        other => DataFusionError::Internal(format!("{other:?}")),
    }
}

#[derive(Debug, Clone)]
struct Registered(IcebergConfig);

impl ExtensionOptions for Registered {
    fn as_any(&self) -> &dyn Any {
        self
    }

    fn as_any_mut(&mut self) -> &mut dyn Any {
        self
    }

    fn cloned(&self) -> Box<dyn ExtensionOptions> {
        Box::new(self.clone())
    }

    fn set(&mut self, key: &str, value: &str) -> Result<(), DataFusionError> {
        self.0.set(key, value).map_err(to_outside)
    }

    fn entries(&self) -> Vec<ConfigEntry> {
        vec![]
    }
}

impl ConfigExtension for Registered {
    const PREFIX: &'static str = PREFIX;
}

#[derive(Debug, Clone)]
struct RegisteredOverrides(PartitioningOverrides);

impl ExtensionOptions for RegisteredOverrides {
    fn as_any(&self) -> &dyn Any {
        self
    }

    fn as_any_mut(&mut self) -> &mut dyn Any {
        self
    }

    fn cloned(&self) -> Box<dyn ExtensionOptions> {
        Box::new(self.clone())
    }

    fn set(&mut self, key: &str, value: &str) -> Result<(), DataFusionError> {
        self.0.set(key, value).map_err(to_outside)
    }

    fn entries(&self) -> Vec<ConfigEntry> {
        vec![]
    }
}

impl ConfigExtension for RegisteredOverrides {
    const PREFIX: &'static str = PREFIX;
}

#[test]
fn test_iceberg_scan_config_parses_exact_keys() {
    let mut options = ConfigOptions::default();
    options.extensions.insert(Registered(IcebergConfig::default()));

    let default_config = &options.extensions.get::<Registered>().unwrap().0;
    assert!(!default_config.scan.identity_partitioning_enabled);
    assert!(default_config.scan.bucket_execution_enabled);

    options
        .set("iceberg.scan.identity_partitioning_enabled", "true")
        .unwrap();
    options
        .set("iceberg.scan.bucket_execution_enabled", "false")
        .unwrap();

    let config = &options.extensions.get::<Registered>().unwrap().0;
    assert!(config.scan.identity_partitioning_enabled);
    assert!(!config.scan.bucket_execution_enabled);
}

#[test]
fn test_iceberg_scan_config_can_be_set_through_config_options() {
    let mut config_options = ConfigOptions::default();
    config_options
        .extensions
        .insert(RegisteredOverrides(PartitioningOverrides::default()));

    config_options
        .set("iceberg.value_partitioning", "enabled")
        .unwrap();
    config_options
        .set("iceberg.bucket_execution", "disabled")
        .unwrap();

    let scan_config = &config_options
        .extensions
        .get::<RegisteredOverrides>()
        .unwrap()
        .0;
    assert_eq!(
        scan_config.value_partitioning,
        PartitioningOverride::Enabled
    );
    assert_eq!(scan_config.bucket_execution, PartitioningOverride::Disabled);
}

#[test]
fn builders_change_their_own_flag_only() {
    let config = IcebergConfig::default().with_identity_partitioning_enabled(true);
    assert!(config.scan.identity_partitioning_enabled);
    assert!(config.scan.bucket_execution_enabled);

    let config = config.with_bucket_execution_enabled(false);
    assert!(config.scan.identity_partitioning_enabled);
    assert!(!config.scan.bucket_execution_enabled);
}

#[test]
fn set_reads_truth_values_in_any_case() {
    let mut config = IcebergScanConfig::default();
    config.set("identity_partitioning_enabled", "TRUE").unwrap();
    assert!(config.identity_partitioning_enabled);
    config.set("bucket_execution_enabled", "False").unwrap();
    assert!(!config.bucket_execution_enabled);
}

#[test]
fn set_does_not_look_behind_the_option_name() {
    let mut config = IcebergScanConfig::default();
    config
        .set("identity_partitioning_enabled.more", "true")
        .unwrap();
    assert!(config.identity_partitioning_enabled);
}

#[test]
fn set_refuses_unknown_options() {
    let mut config = IcebergConfig::default();
    match config.set("scan.no_such_option", "true") {
        Err(PlanError::Configuration(message)) => assert_eq!(
            message,
            "Config value \"no_such_option\" not found on IcebergScanConfig"
        ),
        other => panic!("unexpected {other:?}"),
    }
    match config.set("scan", "true") {
        Err(PlanError::Configuration(message)) => {
            assert_eq!(message, "Config value \"\" not found on IcebergScanConfig")
        }
        other => panic!("unexpected {other:?}"),
    }
    match config.set("write.x", "true") {
        Err(PlanError::Configuration(message)) => {
            assert_eq!(message, "Config value \"write\" not found on IcebergConfig")
        }
        other => panic!("unexpected {other:?}"),
    }
    assert_eq!(config, IcebergConfig::default());
}

#[test]
fn set_refuses_what_is_not_a_truth_value() {
    let mut config = IcebergConfig::default();
    match config.set("scan.bucket_execution_enabled", "sometimes") {
        Err(PlanError::Reported(e)) => {
            assert!(e.to_string().contains("Error parsing 'sometimes' as bool"));
            let mut flag = true;
            let outside = ConfigField::set(&mut flag, "", "sometimes").unwrap_err();
            assert_eq!(e.to_string(), outside.to_string());
        }
        other => panic!("unexpected {other:?}"),
    }
    assert!(config.set("scan.bucket_execution_enabled", "wahr\u{df}").is_err());
    assert_eq!(config, IcebergConfig::default());
}

#[test]
fn override_texts() {
    assert_eq!(
        PartitioningOverride::parse("auto"),
        Some(PartitioningOverride::Auto)
    );
    assert_eq!(
        PartitioningOverride::parse("enabled"),
        Some(PartitioningOverride::Enabled)
    );
    assert_eq!(
        PartitioningOverride::parse("disabled"),
        Some(PartitioningOverride::Disabled)
    );
    assert_eq!(PartitioningOverride::parse("on"), None);
    assert_eq!(PartitioningOverride::default(), PartitioningOverride::Auto);
}

#[test]
fn overrides_refuse_unknown_names_and_texts() {
    let mut overrides = PartitioningOverrides::default();
    match overrides.set("value_partitioning", "on") {
        Err(PlanError::Configuration(message)) => assert_eq!(
            message,
            "Invalid partitioning override \"on\", expected 'auto', 'enabled' or 'disabled'"
        ),
        other => panic!("unexpected {other:?}"),
    }
    match overrides.set("hash", "enabled") {
        Err(PlanError::Configuration(message)) => assert_eq!(
            message,
            "Config value \"hash\" not found on PartitioningOverrides"
        ),
        other => panic!("unexpected {other:?}"),
    }
    assert_eq!(overrides, PartitioningOverrides::default());
}
