use winsweep::home_edition::HomeEditionCompat;
use winsweep::restart::{ApplicationStatus, ApplicationType};
use winsweep::services::{ServiceStartType, ServiceState};
use winsweep::signatures::matches_pattern;
use winsweep::updater::version_gt;
use winsweep::windows_edition::{WindowsEdition, WindowsEditionDetector};
use winsweep::wsl::{WslDetector, WslProbes};

#[test]
fn test_home_edition_detection() {
    let compat = HomeEditionCompat::new(Some("Core"), Some("Windows 10 Home"), Some("19045"));
    assert!(compat.is_ok());
}

#[test]
fn test_application_type_conversion() {
    assert_eq!(ApplicationType::from(1), ApplicationType::Application);
    assert_eq!(ApplicationType::from(2), ApplicationType::Service);
    assert_eq!(ApplicationType::from(99), ApplicationType::Unknown);
}

#[test]
fn test_application_status_conversion() {
    assert_eq!(ApplicationStatus::from(1), ApplicationStatus::Running);
    assert_eq!(ApplicationStatus::from(2), ApplicationStatus::Stopped);
    assert_eq!(ApplicationStatus::from(99), ApplicationStatus::Unknown);
}

#[test]
fn test_service_state_conversion() {
    assert_eq!(ServiceState::from(1), ServiceState::Stopped);
    assert_eq!(ServiceState::from(4), ServiceState::Running);
    assert_eq!(ServiceState::from(99), ServiceState::Unknown);
}

#[test]
fn test_start_type_from_raw() {
    assert_eq!(ServiceStartType::from_raw(0), ServiceStartType::Boot);
    assert_eq!(ServiceStartType::from_raw(1), ServiceStartType::System);
    assert_eq!(ServiceStartType::from_raw(2), ServiceStartType::Automatic);
    assert_eq!(ServiceStartType::from_raw(3), ServiceStartType::Manual);
    assert_eq!(ServiceStartType::from_raw(4), ServiceStartType::Disabled);
    assert_eq!(ServiceStartType::from_raw(99), ServiceStartType::Unknown);
}

#[test]
fn test_version_gt() {
    assert!(version_gt("1.0.1", "1.0.0"));
    assert!(version_gt("2.0.0", "1.9.9"));
    assert!(!version_gt("1.0.0", "1.0.0"));
    assert!(!version_gt("0.9.0", "1.0.0"));
}

#[test]
fn test_edition_parsing() {
    assert_eq!(WindowsEditionDetector::parse_edition_string("Windows 10 Home"), WindowsEdition::Home);
    assert_eq!(WindowsEditionDetector::parse_edition_string("Windows 11 Pro"), WindowsEdition::Pro);
    assert_eq!(
        WindowsEditionDetector::parse_edition_string("Windows 10 Enterprise"),
        WindowsEdition::Enterprise
    );
    assert_eq!(WindowsEditionDetector::parse_edition_string("Unknown Edition"), WindowsEdition::Unknown);
}

/// Probes of a machine on which nothing of WSL was found.
fn empty_probes() -> WslProbes {
    WslProbes {
        wsl_exe_in_path: false,
        package_family_lists: vec![],
        install_state: None,
        lxss_default_distribution: false,
        lxss_distribution_keys: vec![],
        wsl_files: vec![],
        kernel_file_path: None,
        kernel_files: vec![],
        status_output: None,
        build_number: None,
        manage_help_succeeded: false,
        registry_distributions: vec![],
        list_output: None,
    }
}

#[test]
fn test_wsl_detector_creation() {
    let detector = WslDetector::new(empty_probes());
    assert!(!detector.has_wsl());
    assert!(detector.distributions().is_empty());
}

#[test]
fn test_detect_rust_project() {
    assert!(matches_pattern(r"C:\test\project", "Cargo.toml", true));
    assert!(!matches_pattern(r"C:\test\project", "Cargo.toml", false));
}
