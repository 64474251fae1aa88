use winsweep::package_manager::{
    BundlerManager, CargoManager, CondaManager, GitLfsManager, GoModulesManager, JetBrainsManager,
    MavenManager, NpmManager, PackageManager, PipManager, RubyGemsManager, UvManager, VsCodeManager,
};

#[test]
fn bundler_test_display_name() {
    assert_eq!(BundlerManager::default().display_name(), "Bundler (Ruby)");
}

#[test]
fn cargo_test_display_name() {
    assert_eq!(CargoManager::default().display_name(), "Rust Package Manager (Cargo)");
}

#[test]
fn conda_test_display_name() {
    assert_eq!(CondaManager::default().display_name(), "conda / mamba");
}

#[test]
fn git_lfs_test_display_name() {
    assert_eq!(GitLfsManager.display_name(), "Git LFS");
}

#[test]
fn go_modules_test_display_name() {
    let m = GoModulesManager::new(Some("go".to_string())).unwrap();
    assert_eq!(m.name(), "go");
    assert_eq!(m.display_name(), "Go Modules");
}

#[test]
fn jetbrains_test_display_name() {
    assert_eq!(JetBrainsManager.display_name(), "JetBrains IDEs");
}

#[test]
fn maven_test_display_name() {
    assert_eq!(MavenManager.display_name(), "Apache Maven");
}

#[test]
fn npm_test_display_name() {
    assert_eq!(NpmManager::default().display_name(), "Node Package Manager (npm)");
}

#[test]
fn pip_test_display_name() {
    assert_eq!(PipManager::default().display_name(), "Python Package Manager (pip)");
}

#[test]
fn ruby_gems_test_display_name() {
    assert_eq!(RubyGemsManager::default().display_name(), "Ruby Gems");
}

#[test]
fn uv_test_display_name() {
    assert_eq!(UvManager.display_name(), "uv (Python)");
}

#[test]
fn vscode_test_display_name() {
    assert_eq!(VsCodeManager.display_name(), "Visual Studio Code");
}
