use winsweep::home_edition::HomeEditionCompat;
use winsweep::junction::JunctionDetector;
use winsweep::package_manager::{CargoManager, GitLfsManager, MavenManager, VsCodeManager};
use winsweep::cache_locations::keep_existing;
use winsweep::services::ServiceManager;
use winsweep::windows_api::{is_reparse_attributes, WindowsApi};

/// Attributes Windows reports for a plain directory.
const DIRECTORY_ATTRIBUTES: u32 = 0x10;
/// Attributes Windows reports for a freshly written file.
const ARCHIVE_ATTRIBUTES: u32 = 0x20;

#[test]
fn junction_detector_test_is_reparse_point() {
    let _api = WindowsApi::new();
    let detector = JunctionDetector::new();
    // Regular directory should not be a reparse point
    assert!(!detector.is_reparse_point(DIRECTORY_ATTRIBUTES));
}

#[test]
fn test_regular_file() {
    let detector = JunctionDetector::new();
    let reparse = detector.is_reparse_point(ARCHIVE_ATTRIBUTES);
    assert!(!reparse);
    assert!(!detector.is_junction(reparse, 0));
    assert!(!detector.is_symlink(reparse, 0));
}

#[test]
fn windows_api_test_is_reparse_point() {
    let _api = WindowsApi::new();
    // Regular directory should not be a reparse point
    assert!(!is_reparse_attributes(DIRECTORY_ATTRIBUTES));
}

#[test]
fn test_service_manager_creation() {
    let compat = HomeEditionCompat::new(Some("Professional"), Some("Windows 11 Pro"), Some("22631"));
    assert!(compat.is_ok());
    let _manager = ServiceManager::new(compat.unwrap());
}

#[test]
fn test_lfs_cache_dir_is_non_empty() {
    let dir = GitLfsManager::lfs_cache_dir(Some(r"C:\Users\u\AppData\Roaming"), false, Some(r"C:\Users\u"));
    assert!(!dir.is_empty(), "lfs_cache_dir must not return an empty path");
    let dir = GitLfsManager::lfs_cache_dir(None, false, None);
    assert!(!dir.is_empty(), "lfs_cache_dir must not return an empty path");
}

#[test]
fn test_get_cargo_path_succeeds() {
    // No path set on the manager: the one found on the PATH is used.
    let manager = CargoManager::new(None);
    let result = manager.cargo_executable(Some(r"C:\Users\u\.cargo\bin\cargo.exe".to_string()));
    assert!(result.is_ok(), "get_cargo_path() must find cargo in PATH");
}

#[test]
fn test_cache_dirs_no_panic() {
    let candidates = VsCodeManager::cache_subdirs(r"C:\Users\u\AppData\Roaming\Code");
    let exists = [true, false, true, false];
    let dirs = keep_existing(&candidates, &exists);
    // All returned paths must be ones that exist
    for p in &dirs {
        let i = candidates.iter().position(|c| c == p).unwrap();
        assert!(exists[i], "cache_dirs() must only return paths that exist: {}", p);
    }
    assert_eq!(dirs.len(), 2);
}

#[test]
fn test_code_dir_uses_vscode_portable_env() {
    let tmp = r"C:\Temp\vscode";
    let dir = VsCodeManager::code_dir(Some(tmp), true, Some(r"C:\Users\u\AppData\Roaming"));
    assert_eq!(
        dir,
        Some(r"C:\Temp\vscode\user-data".to_string()),
        "code_dir() must use VSCODE_PORTABLE/user-data when it exists"
    );
}

#[test]
fn test_code_dir_falls_back_when_portable_user_data_absent() {
    let tmp = r"C:\Temp\vscode";
    let config = r"C:\Users\u\AppData\Roaming";
    let dir = VsCodeManager::code_dir(Some(tmp), false, Some(config));
    let expected = Some(r"C:\Users\u\AppData\Roaming\Code".to_string());
    assert_eq!(dir, expected, "must fall back to standard Code config dir");
}

#[test]
fn test_local_repo_from_maven_local_repo_env() {
    let expected = r"C:\Temp\m2repo";
    let result = MavenManager::resolve_local_repo(Some(expected), Some(r"C:\Users\u"), None);
    assert_eq!(result, expected);
}

#[test]
fn test_local_repo_from_settings_xml() {
    let home = r"C:\Temp\home";
    let custom_repo = r"C:\Temp\home\my-repo";
    let settings = format!("<settings>\n  <localRepository>{}</localRepository>\n</settings>\n", custom_repo);
    let result = MavenManager::resolve_local_repo(None, Some(home), Some(settings.as_str()));
    assert_eq!(result, custom_repo);
}

#[test]
fn test_local_repo_default() {
    let result = MavenManager::resolve_local_repo(None, Some(r"C:\Users\u"), None);
    assert!(
        result.ends_with(r".m2\repository"),
        "default must end with .m2/repository, got: {}",
        result
    );
}
