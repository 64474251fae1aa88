use winsweep::config::Config;

#[test]
fn test_default_config() {
    let config = Config::default();
    let exists = vec![true; config.scan.paths.len()];
    assert!(config.validate(&exists).is_ok());
}

#[test]
fn test_config_validation_empty_paths() {
    let mut config = Config::default();
    config.scan.paths.clear();
    assert!(config.validate(&[]).is_err());
}

#[test]
fn test_telemetry_disabled_by_default() {
    let config = Config::default();
    assert!(!config.telemetry.opt_in);
}
