use winsweep::cache_locations::{chromium_profile_candidates, keep_existing};
use winsweep::package_manager::{
    total_cache_size, BundlerManager, CargoManager, ChromeManager, CondaManager, EdgeManager,
    FirefoxManager, GitLfsManager, JetBrainsManager, MavenManager, NpmManager, PackageManager,
    PipManager, RubyGemsManager, UvManager, VsCodeManager,
};

#[test]
fn test_bundler_manager_creation() {
    let manager = BundlerManager::new();
    assert_eq!(manager.name(), "bundler");
}

#[test]
fn test_cargo_manager_creation() {
    let manager = CargoManager::new(Some(r"C:\Users\u\.cargo\bin\cargo.exe".to_string()));
    assert_eq!(manager.name(), "cargo");
}

#[test]
fn test_conda_manager_creation() {
    let manager = CondaManager::new();
    assert_eq!(manager.name(), "conda");
}

#[test]
fn test_git_lfs_manager_creation() {
    let manager = GitLfsManager::new();
    assert_eq!(manager.name(), "git_lfs");
}

#[test]
fn test_jetbrains_manager_creation() {
    let manager = JetBrainsManager::new();
    assert_eq!(manager.name(), "jetbrains");
}

#[test]
fn test_maven_manager_creation() {
    let manager = MavenManager::new();
    assert_eq!(manager.name(), "maven");
}

#[test]
fn test_npm_manager_creation() {
    let manager = NpmManager::new(None);
    assert_eq!(manager.name(), "npm");
}

#[test]
fn test_pip_manager_creation() {
    let manager = PipManager::new(false, false);
    assert_eq!(manager.name(), "pip");
}

#[test]
fn test_ruby_gems_manager_creation() {
    let manager = RubyGemsManager::new();
    assert_eq!(manager.name(), "ruby_gems");
}

#[test]
fn test_uv_manager_creation() {
    let manager = UvManager::new();
    assert_eq!(manager.name(), "uv");
}

#[test]
fn test_vscode_manager_creation() {
    let manager = VsCodeManager::new();
    assert_eq!(manager.name(), "vscode");
}

#[test]
fn test_chrome_manager_creation() {
    let manager = ChromeManager::new();
    assert_eq!(manager.name(), "chrome");
}

#[test]
fn test_edge_manager_creation() {
    let manager = EdgeManager::new();
    assert_eq!(manager.name(), "edge");
}

#[test]
fn test_firefox_manager_creation() {
    let manager = FirefoxManager::new();
    assert_eq!(manager.name(), "firefox");
}

#[test]
fn test_display_names() {
    assert_eq!(ChromeManager.display_name(), "Google Chrome");
    assert_eq!(EdgeManager.display_name(), "Microsoft Edge");
    assert_eq!(FirefoxManager.display_name(), "Mozilla Firefox");
}

#[test]
fn test_chrome_empty_user_data() {
    // An empty directory has no profiles, so no cache folders are looked at.
    let profiles: Vec<String> = Vec::new();
    let mut paths: Vec<String> = Vec::new();
    for p in &profiles {
        paths.extend(chromium_profile_candidates(p));
    }
    assert!(paths.is_empty(), "no cache paths in empty dir");
}

#[test]
fn test_chromium_cache_paths_detection() {
    // A "Default" profile with a Cache and a Code Cache folder.
    let candidates = chromium_profile_candidates(r"C:\Temp\User Data\Default");
    let present = [true, false, true, false, false, false, false];
    let paths = keep_existing(&candidates, &present);
    assert_eq!(paths.len(), 2);
    assert!(paths.iter().any(|p| p.ends_with(r"\Cache")));
    assert!(paths.iter().any(|p| p.ends_with(r"\Code Cache")));
}

#[test]
fn test_total_size_missing_paths() {
    // Paths that don't exist could not be measured and contribute 0
    let sizes = vec![None];
    assert_eq!(total_cache_size(&sizes), 0);
}

#[test]
fn test_cargo_path_initialized() {
    let manager = CargoManager::new(Some(r"C:\Users\u\.cargo\bin\cargo.exe".to_string()));
    assert!(manager.configured_path().is_some(), "cargo_path must be populated when cargo is in PATH");
}

#[test]
fn test_get_cargo_home_default() {
    let manager = CargoManager::new(None);
    let home = manager.cargo_home_for(None, Some(r"C:\Users\u"));
    assert!(home.is_ok());
    assert!(home.unwrap().ends_with(".cargo"), "default cargo home must end with .cargo");
}

#[test]
fn test_cargo_home_env_var() {
    let manager = CargoManager::new(None);
    let home = manager.cargo_home_for(Some("/tmp/test_cargo_home"), Some(r"C:\Users\u")).unwrap();
    assert_eq!(home, "/tmp/test_cargo_home");
}

#[test]
fn test_npm_path_initialized_when_npm_available() {
    let manager = NpmManager::new(Some(r"C:\Program Files\nodejs\npm.cmd".to_string()));
    assert!(manager.npm_executable().is_some(), "npm_path must be populated when npm is in PATH");
}

#[test]
fn npm_test_get_cache_path_fallback() {
    let manager = NpmManager::new(None);
    // Falls back to ~/.npm or AppData\Local\npm-cache
    let result = manager.cache_path_for(None, Some(r"C:\Users\u"), false);
    assert!(result.is_ok(), "get_cache_path fallback must not error");
    assert_eq!(result.unwrap(), r"C:\Users\u\.npm");
}

#[test]
fn test_pip_path_initialized_when_pip_available() {
    let manager = PipManager::new(false, true);
    assert!(manager.pip_executable().is_some(), "pip_path must be populated when pip/pip3 is in PATH");
    assert_eq!(PipManager::new(true, true).pip_executable(), Some("pip3".to_string()));
}

#[test]
fn pip_test_get_cache_path_fallback() {
    let manager = PipManager::new(false, false);
    // No pip on the PATH: the cache directory's pip folder stands in.
    assert_eq!(
        manager.pip_command(false, false, None, Some(r"C:\Users\u\AppData\Local")),
        Ok(r"C:\Users\u\AppData\Local\pip".to_string())
    );
    let candidates = PipManager::cache_dir_candidates(Some(r"C:\Users\u\AppData\Local"), Some(r"C:\Users\u"));
    assert_eq!(
        candidates,
        vec![
            r"C:\Users\u\AppData\Local\pip".to_string(),
            r"C:\Users\u\.cache\pip".to_string(),
            r"C:\Users\u\AppData\Local\pip\cache".to_string(),
        ]
    );
    let _ = PipManager::resolve_cache_path(None, &candidates, &[false, false, false], None);
    assert_eq!(
        PipManager::resolve_cache_path(None, &candidates, &[false, true, true], None),
        Ok(r"C:\Users\u\.cache\pip".to_string())
    );
    assert_eq!(
        PipManager::resolve_cache_path(Some("D:\\pipcache\r\n"), &candidates, &[true, true, true], None),
        Ok(r"D:\pipcache".to_string())
    );
}

#[test]
fn test_get_env_paths_returns_vec() {
    let listing = "Package    Version Location\n---------- ------- --------\nrequests   2.31.0  C:\\Py\\Lib\\site-packages pip\n";
    assert_eq!(PipManager::location_candidates(listing), vec![r"C:\Py\Lib\site-packages".to_string()]);
    assert_eq!(PipManager::default_env_paths(r"C:\Users\u").len(), 2);
}
