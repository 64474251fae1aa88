use winsweep::cli::{mode_from_name, ndjson_scan_config, Mode};
use winsweep::home_edition::HomeEditionCompat;
use winsweep::package_manager::{
    chromium_cache_dirs, conda_env_pkgs_dirs, expand_env, first_existing, AndroidSdkManager,
    BunManager, CleanTally, CommandOutcome, ConanManager, CypressManager, EnvValues,
    FlutterManager, GitLfsManager, GoModulesManager, GradleManager, NugetManager, PipManager,
    PlaywrightManager, UvManager, VsCodeManager,
};
use winsweep::services::{DisableDecision, ServiceManager, ServiceStartType, ServiceState};

fn env() -> EnvValues {
    EnvValues {
        local_app_data: r"C:\Users\me\AppData\Local".to_string(),
        app_data: r"C:\Users\me\AppData\Roaming".to_string(),
        program_files: r"C:\Program Files".to_string(),
        program_files_x86: r"C:\Program Files (x86)".to_string(),
        user_profile: r"C:\Users\me".to_string(),
    }
}

#[test]
fn cli_modes_and_scan_config() {
    assert_eq!(mode_from_name("update"), Mode::WindowsUpdate);
    assert_eq!(mode_from_name("docker"), Mode::Docker);
    assert_eq!(mode_from_name("other"), Mode::Main);
    let c = ndjson_scan_config(vec![], r"C:\here", Some(30));
    assert_eq!(c.paths, vec![r"C:\here".to_string()]);
    assert_eq!(c.min_age_days, Some(30));
    let c2 = ndjson_scan_config(vec!["a".into(), "b".into()], r"C:\here", None);
    assert_eq!(c2.paths.len(), 2);
}

#[test]
fn service_rules() {
    let m = ServiceManager::new(HomeEditionCompat::from_parts(true, 19045));
    assert_eq!(m.decide_disable("RpcSs", Some(ServiceState::Running)), DisableDecision::Refuse);
    assert_eq!(m.decide_disable("wuauserv", Some(ServiceState::Running)), DisableDecision::StopThenDisable);
    assert_eq!(m.decide_disable("wuauserv", Some(ServiceState::Stopped)), DisableDecision::Disable);
    assert_eq!(m.decide_disable("wuauserv", None), DisableDecision::Disable);
    assert!(m.check_delete("Winmgmt").is_err());
    assert!(m.check_delete("wuauserv").is_ok());
    assert_eq!(ServiceManager::start_type_value(ServiceStartType::Disabled), Ok(4));
    assert!(ServiceManager::start_type_value(ServiceStartType::Unknown).is_err());
    assert!(m.is_home_edition());
}

#[test]
fn environment_expansion_and_candidates() {
    assert_eq!(
        expand_env(r"%LOCALAPPDATA%\pnpm\pnpm.exe", &env(), true, false),
        r"C:\Users\me\AppData\Local\pnpm\pnpm.exe"
    );
    assert_eq!(
        expand_env(r"%USERPROFILE%\go\bin\go.exe", &env(), false, false),
        r"%USERPROFILE%\go\bin\go.exe"
    );
    assert_eq!(
        expand_env(r"%ProgramFiles(x86)%\Go\bin\go.exe", &env(), false, true),
        r"C:\Program Files (x86)\Go\bin\go.exe"
    );
    let c = vec!["a".to_string(), "b".to_string(), "c".to_string()];
    assert_eq!(first_existing(&c, &[false, true, true]), Some("b".to_string()));
    assert_eq!(first_existing(&c, &[false]), None);
    assert_eq!(conda_env_pkgs_dirs(r" C:\a ; D:\b"), vec![r"C:\a".to_string(), r"D:\b".to_string()]);
}

#[test]
fn tool_homes() {
    assert_eq!(GradleManager::gradle_home(None, Some(r"C:\Users\me")), r"C:\Users\me\.gradle");
    assert_eq!(GradleManager::gradle_home(Some(r"D:\gradle"), None), r"D:\gradle");
    assert_eq!(
        AndroidSdkManager::sdk_root(Some(r"X:\sdk"), false, None, false, Some(r"C:\L"), true),
        Some(r"C:\L\Android\Sdk".to_string())
    );
    assert_eq!(AndroidSdkManager::avd_home(None, Some(r"C:\U")), r"C:\U\.android\avd");
    assert_eq!(BunManager::cache_dir(Some(r"D:\bun"), false, Some(r"C:\U")), r"C:\U\.bun\install\cache");
    assert_eq!(ConanManager::conan_home(None, Some(r"C:\U"), true), r"C:\U\.conan2");
    assert_eq!(CypressManager::binary_cache(None, Some(r"C:\R"), None), r"C:\R\Cypress\Cache");
    assert_eq!(FlutterManager::pub_cache(None, Some(r"C:\R"), false, Some(r"C:\U")), r"C:\U\.pub-cache");
    assert_eq!(GitLfsManager::lfs_cache_dir(Some(r"C:\R"), true, None), r"C:\R\Git\lfs\objects");
    assert_eq!(GitLfsManager::lfs_cache_dir(None, true, None), r".git\lfs\objects");
    assert_eq!(UvManager::cache_dir(Some(r"C:\L")), Some(r"C:\L\uv\cache".to_string()));
    assert_eq!(
        VsCodeManager::code_dir(Some(r"D:\vscode"), true, Some(r"C:\R")),
        Some(r"D:\vscode\user-data".to_string())
    );
    assert_eq!(VsCodeManager::code_dir(Some(r"D:\vscode"), false, Some(r"C:\R")), Some(r"C:\R\Code".to_string()));
    assert_eq!(
        PlaywrightManager::browsers_cache(None, Some(r"C:\L"), None),
        r"C:\L\ms-playwright"
    );
    assert_eq!(chromium_cache_dirs().len(), 7);
}

#[test]
fn go_and_nuget_cleanup_rules() {
    assert_eq!(GoModulesManager::clean_commands(false, true), vec!["go clean -modcache", "go clean -cache"]);
    assert!(GoModulesManager::clean_commands(true, true).is_empty());
    assert!(GoModulesManager::is_glob_path(r"C:\T\go-build*"));
    assert!(GoModulesManager::is_go_build_entry(Some("go-build1234")));
    assert_eq!(GoModulesManager::gopath(Some(" C:\\gp \n"), None), r"C:\gp");
    assert_eq!(GoModulesManager::gopath(None, Some(r"C:\U")), r"C:\U\go");
    let c = GoModulesManager::cache_path_candidates(Some("  "), Some("C:\\mod\n"), Some(r"C:\U"));
    assert_eq!(
        c,
        vec![r"C:\mod".to_string(), r"C:\U\go\pkg\mod".to_string(), r"C:\U\go\build".to_string()]
    );
    assert!(NugetManager::is_project_packages_dir(r"C:\proj\packages"));
    assert!(!NugetManager::is_project_packages_dir(r"C:\Users\me\.nuget\v3-cache"));
    assert_eq!(NugetManager::local_cache_types().len(), 5);
    let mut t = CleanTally::new("playwright");
    assert!(PlaywrightManager::after_uninstall(&mut t, &CommandOutcome::Failed("boom".into())));
    assert!(!PlaywrightManager::after_uninstall(&mut t, &CommandOutcome::Succeeded));
    t.record_emptied(r"C:\x", Ok((3, 300)));
    t.record_emptied(r"C:\y", Err("no".into()));
    let r = t.finish(1);
    assert_eq!((r.items_deleted, r.space_freed), (4, 300));
    assert_eq!(
        r.errors,
        vec!["playwright uninstall --all failed: boom".to_string(), r"Failed to clean C:\y: no".to_string()]
    );
    let pip = "Package Version Location\n------- ------- --------\nrequests 2.31 C:\\py\\site\nbad\n";
    assert_eq!(PipManager::location_candidates(pip), vec![r"C:\py\site".to_string()]);
}
