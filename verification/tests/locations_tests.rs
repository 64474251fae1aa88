use winsweep::cache_info::{CargoCache, NpmCache, PipCache};
use winsweep::cache_locations::{chromium_profile_candidates, keep_existing};
use winsweep::package_manager::{
    AndroidSdkManager, BundlerManager, CargoManager, ChromeManager, CondaManager, EdgeManager,
    FirefoxManager, GitLfsManager, GoBuildCacheManager, GoModulesManager, NpmManager, NugetManager,
    PipManager, PkgError, PnpmManager, PoetryManager, RubyGemsManager, SbtManager, VcpkgManager,
    YarnManager,
};
use winsweep::path_order::paths_equal;

fn strings(v: &[&str]) -> Vec<String> {
    v.iter().map(|s| s.to_string()).collect()
}

#[test]
fn keeps_only_existing_paths_in_order() {
    let paths = strings(&["a", "b", "c"]);
    assert_eq!(keep_existing(&paths, &[true, false, true]), strings(&["a", "c"]));
    assert_eq!(keep_existing(&paths, &[true]), strings(&["a"]));
}

#[test]
fn sbt_cache_locations() {
    assert_eq!(SbtManager::ivy_cache(Some(r"D:\ivy"), None), r"D:\ivy\cache");
    assert_eq!(SbtManager::ivy_cache(None, Some(r"C:\Users\u")), r"C:\Users\u\.ivy2\cache");
    assert_eq!(SbtManager::coursier_cache(Some(r"E:\cs"), Some(r"C:\L"), true, None), r"E:\cs");
    assert_eq!(
        SbtManager::coursier_cache(None, Some(r"C:\L"), true, Some(r"C:\Users\u")),
        r"C:\L\Coursier\cache\v1"
    );
    assert_eq!(
        SbtManager::coursier_cache(None, Some(r"C:\L"), false, Some(r"C:\Users\u")),
        r"C:\Users\u\.cache\coursier\v1"
    );
    assert_eq!(
        SbtManager::cache_path_candidates("a", "b", r"C:\Users\u\.sbt"),
        strings(&["a", "b", r"C:\Users\u\.sbt\boot"])
    );
}

#[test]
fn vcpkg_root_and_caches() {
    assert_eq!(VcpkgManager::vcpkg_root(Some(r"D:\v"), true, &[true, true, true], None, true), Some(r"D:\v".to_string()));
    assert_eq!(
        VcpkgManager::vcpkg_root(Some(r"D:\v"), false, &[false, true, true], None, true),
        Some(r"C:\src\vcpkg".to_string())
    );
    assert_eq!(
        VcpkgManager::vcpkg_root(None, false, &[false, false, false], Some(r"C:\Users\u"), true),
        Some(r"C:\Users\u\vcpkg".to_string())
    );
    assert_eq!(VcpkgManager::vcpkg_root(None, false, &[], None, false), None);
    assert_eq!(VcpkgManager::default_binary_cache(Some(r"C:\L"), None), r"C:\L\vcpkg\archives");
    assert_eq!(VcpkgManager::default_binary_cache(None, Some(r"C:\Users\u")), r"C:\Users\u\.vcpkg\archives");
    assert_eq!(
        VcpkgManager::cache_path_candidates("bc", Some(r"C:\vcpkg")),
        strings(&["bc", r"C:\vcpkg\buildtrees", r"C:\vcpkg\packages"])
    );
    assert_eq!(VcpkgManager::cache_path_candidates("bc", None), strings(&["bc"]));
}

#[test]
fn go_build_cache_dir() {
    assert_eq!(
        GoBuildCacheManager::resolve_cache_dir(Some("  C:\\gocache\r\n"), true, Some(r"C:\L"), true, None),
        r"C:\gocache"
    );
    assert_eq!(
        GoBuildCacheManager::resolve_cache_dir(Some("C:\\gocache\n"), false, Some(r"C:\L"), true, None),
        r"C:\L\go-build"
    );
    assert_eq!(
        GoBuildCacheManager::resolve_cache_dir(None, false, Some(r"C:\L"), false, Some(r"C:\Users\u")),
        r"C:\Users\u\.cache\go-build"
    );
    assert_eq!(GoBuildCacheManager::resolve_cache_dir(None, false, None, false, None), r".cache\go-build");
}

#[test]
fn ruby_gems_cache_resolution() {
    let m = RubyGemsManager::new();
    assert_eq!(m.gem_command(true), Ok("gem".to_string()));
    assert_eq!(m.gem_command(false), Err(PkgError::ExecutableNotFound));
    assert_eq!(
        m.resolve_cache_path(Some("C:\\Ruby\\gems\n"), true, Some(r"D:\g"), true, None, false),
        Ok(r"C:\Ruby\gems\cache".to_string())
    );
    assert_eq!(
        m.resolve_cache_path(Some("C:\\Ruby\\gems\n"), false, Some(r"D:\g"), true, None, false),
        Ok(r"D:\g\cache".to_string())
    );
    assert_eq!(
        m.resolve_cache_path(None, false, None, false, Some(r"C:\Users\u"), true),
        Ok(r"C:\Users\u\.gem".to_string())
    );
    assert_eq!(m.resolve_cache_path(None, false, None, false, Some(r"C:\Users\u"), false), Err(PkgError::CacheNotFound));
}

#[test]
fn bundler_locations() {
    let m = BundlerManager::new();
    assert_eq!(m.bundle_command(true), Ok("bundle".to_string()));
    assert_eq!(m.bundle_command(false), Err(PkgError::ExecutableNotFound));
    assert_eq!(
        BundlerManager::resolve_vendor_path(Some(r"D:\b"), true, Some("x\n"), true, None, true),
        Some(r"D:\b".to_string())
    );
    assert_eq!(
        BundlerManager::resolve_vendor_path(Some(r"D:\b"), false, Some(" C:\\vendor \n"), true, None, true),
        Some(r"C:\vendor".to_string())
    );
    assert_eq!(
        BundlerManager::resolve_vendor_path(None, false, None, false, Some(r"C:\Users\u"), true),
        Some(r"C:\Users\u\.bundle\cache".to_string())
    );
    assert_eq!(BundlerManager::resolve_vendor_path(None, false, None, false, Some(r"C:\Users\u"), false), None);
    let roots = BundlerManager::vendor_bundle_roots(r"C:\Users\u");
    assert_eq!(roots.len(), 7);
    assert_eq!(roots[0], r"C:\Users\u\projects");
    assert_eq!(roots[5], r"C:\Users\u\repos");
    assert_eq!(roots[6], r"C:\Users\u");
    assert_eq!(BundlerManager::vendor_bundle(r"C:\p"), r"C:\p\vendor\bundle");
}

#[test]
fn conda_command_search() {
    let m = CondaManager::new();
    assert_eq!(m.conda_command(&[false, false, true, true]), Ok("mamba.exe".to_string()));
    assert_eq!(m.conda_command(&[true, true]), Ok("conda.exe".to_string()));
    assert_eq!(m.conda_command(&[false, false, false, false]), Err(PkgError::ExecutableNotFound));
    assert_eq!(CondaManager::command_names(), vec!["conda.exe", "conda", "mamba.exe", "mamba"]);
}

#[test]
fn cargo_target_paths_search_five_levels() {
    let ancestors = strings(&[r"C:\p\a\b", r"C:\p\a", r"C:\p", r"C:\"]);
    assert_eq!(
        CargoManager::target_paths(r"C:\Users\u\.cargo", &ancestors, &[true, false, true, false]),
        strings(&[r"C:\Users\u\.cargo\target", r"C:\p\a\b\target", r"C:\p\target"])
    );
    let deep = strings(&["a", "b", "c", "d", "e", "f", "g"]);
    let all = [true; 7];
    assert_eq!(
        CargoManager::target_paths("h", &deep, &all),
        strings(&[r"h\target", r"a\target", r"b\target", r"c\target", r"d\target", r"e\target"])
    );
    let m = CargoManager::new(None);
    assert_eq!(m.cargo_executable(Some(r"C:\bin\cargo.exe".to_string())), Ok(r"C:\bin\cargo.exe".to_string()));
    assert_eq!(m.cargo_executable(None), Err(PkgError::ExecutableNotFound));
}

#[test]
fn browser_profile_locations() {
    let c = chromium_profile_candidates(r"C:\U\Default");
    assert_eq!(c.len(), 7);
    assert_eq!(c[0], r"C:\U\Default\Cache");
    assert_eq!(c[2], r"C:\U\Default\Code Cache");
    assert_eq!(c[6], r"C:\U\Default\JumpListIconsOld");
    assert_eq!(ChromeManager::user_data_under(r"C:\Users\u\AppData"), r"C:\Users\u\AppData\Local\Google\Chrome\User Data");
    assert_eq!(EdgeManager::user_data_under(r"C:\Users\u\AppData"), r"C:\Users\u\AppData\Local\Microsoft\Edge\User Data");
    assert_eq!(
        FirefoxManager::local_profiles_under(r"C:\Users\u\AppData"),
        r"C:\Users\u\AppData\Local\Mozilla\Firefox\Profiles"
    );
    assert_eq!(
        FirefoxManager::roaming_profiles_under(r"C:\Users\u\AppData\Roaming"),
        r"C:\Users\u\AppData\Roaming\Mozilla\Firefox\Profiles"
    );
    assert_eq!(FirefoxManager::profile_cache(r"C:\P\x.default"), r"C:\P\x.default\cache2");
}

#[test]
fn firefox_roaming_caches_are_not_listed_twice() {
    let local = strings(&[r"C:\L\p1\cache2"]);
    let roaming = strings(&["C:/L/p1/cache2", r"C:\R\p2\cache2", r"C:\R\p2\.\cache2"]);
    assert_eq!(
        FirefoxManager::merge_profile_caches(&local, &roaming),
        strings(&[r"C:\L\p1\cache2", r"C:\R\p2\cache2"])
    );
    assert!(paths_equal(r"C:\a\b", "C:/a//b/"));
    assert!(!paths_equal(r"C:\a\b", r"C:\a\c"));
}

#[test]
fn git_lfs_store_lookup() {
    assert_eq!(GitLfsManager::storage_objects("  \n"), None);
    assert_eq!(GitLfsManager::storage_objects("D:\\lfs\n"), Some(r"D:\lfs\objects".to_string()));
    let env = "git-lfs/3.4\nLocalWorkingDir=C:\\repo\r\nLFS_OBJECT_STORE= D:\\store \nOther=x\nLFS_OBJECT_STORE\n";
    assert_eq!(GitLfsManager::env_object_stores(env), strings(&[r"C:\repo\objects", r"D:\store\objects"]));
    let stores = strings(&["s1", "s2"]);
    assert_eq!(GitLfsManager::select_cache_paths(Some("st"), true, &stores, &[true, true], "fb", true), strings(&["st"]));
    assert_eq!(GitLfsManager::select_cache_paths(Some("st"), false, &stores, &[false, true], "fb", true), strings(&["s2"]));
    assert_eq!(GitLfsManager::select_cache_paths(None, false, &stores, &[false, false], "fb", true), strings(&["fb"]));
    assert_eq!(GitLfsManager::select_cache_paths(None, false, &stores, &[], "fb", false), Vec::<String>::new());
}

#[test]
fn android_cache_candidates() {
    assert_eq!(
        AndroidSdkManager::cache_path_candidates(Some(r"C:\sdk"), Some(r"C:\Users\u")),
        strings(&[r"C:\sdk\.gradle", r"C:\sdk\build-tools", r"C:\Users\u\.android\cache"])
    );
    assert_eq!(AndroidSdkManager::cache_path_candidates(None, None), strings(&[r".android\cache"]));
    assert_eq!(AndroidSdkManager::snapshots_dir(r"C:\avd\Pixel.avd"), r"C:\avd\Pixel.avd\snapshots");
}

#[test]
fn nuget_cache_descriptions() {
    let p = NugetManager::global_cache_info(r"C:\Users\u\.nuget\packages", 10);
    assert_eq!(p.description, "NuGet packages");
    assert!(!p.can_delete);
    assert_eq!(p.size_bytes, 10);
    let v3 = NugetManager::global_cache_info(r"C:\Users\u\AppData\Local\NuGet\v3-cache", 1);
    assert_eq!(v3.description, "NuGet v3 cache");
    assert!(v3.can_delete);
    assert_eq!(NugetManager::global_cache_info(r"C:\x\FallbackCache", 1).description, "NuGet fallback cache");
    assert_eq!(NugetManager::global_cache_info(r"C:\Program Files\dotnet\sdk\Fallback", 1).description, ".NET package cache");
    assert_eq!(NugetManager::global_cache_info(r"C:\x\plugins-cache", 1).description, "NuGet plugin cache");
    assert_eq!(NugetManager::global_cache_info(r"C:\x\other", 1).description, "NuGet cache");
    assert_eq!(NugetManager::global_cache_info(r"C:\x\mypackages", 1).description, "NuGet cache");
    let pp = NugetManager::project_cache_info(r"C:\proj\packages", 3);
    assert_eq!(pp.description, "Project packages");
    assert!(!pp.can_delete);
    assert_eq!(NugetManager::project_cache_info(r"C:\proj\obj", 3).description, "Project build artifacts");
}

#[test]
fn named_cache_descriptions() {
    let p = PnpmManager::cache_info(r"C:\x\store", 5);
    assert_eq!(p.description, "pnpm cache: store");
    assert!(p.can_delete);
    assert_eq!(p.path, r"C:\x\store");
    assert_eq!(PoetryManager::cache_info(r"C:\x\cache\", 5).description, "Poetry cache: cache");
    assert_eq!(YarnManager::cache_info(r"C:\", 5).description, "Yarn cache: ");
    assert_eq!(GoModulesManager::cache_info(r"C:\go\pkg\mod", 5).description, "Go modules cache: mod");
}

#[test]
fn cache_kinds_and_deletion_policy() {
    let t = CargoManager::cache_info(CargoCache::Target, r"C:\p\target", 9);
    assert_eq!(t.description, "Cargo build artifacts");
    assert!(!t.can_delete);
    let r = CargoManager::cache_info(CargoCache::Registry, "r", 1);
    assert_eq!(r.description, "Cargo registry cache");
    assert!(r.can_delete);
    assert_eq!(CargoManager::cache_info(CargoCache::Git, "g", 1).description, "Cargo git cache");
    assert_eq!(NpmManager::cache_info(NpmCache::Logs, "l", 1).description, "npm logs");
    assert_eq!(NpmManager::cache_info(NpmCache::GlobalModules, "l", 1).description, "npm global modules");
    assert_eq!(PipManager::cache_location(PipCache::Wheels, r"C:\pip"), r"C:\pip\wheels");
    assert_eq!(PipManager::cache_location(PipCache::Http, r"C:\pip"), r"C:\pip\http");
    assert_eq!(PipManager::cache_info(PipCache::Http, "h", 1).description, "pip HTTP cache");
    let lfs = GitLfsManager::cache_info("o", 2);
    assert!(!lfs.can_delete);
    assert!(!AndroidSdkManager::build_tools_info("b", 1).can_delete);
    assert_eq!(AndroidSdkManager::snapshots_info("s", "Pixel_7", 1).description, "AVD snapshots: Pixel_7");
}

#[test]
fn install_locations_pass_through_shell_expansion_unchanged() {
    assert_eq!(
        NpmManager::install_locations(),
        strings(&[r"C:\Program Files\nodejs\npm.cmd", r"C:\Program Files (x86)\nodejs\npm.cmd", r"%APPDATA%\npm\npm.cmd"])
    );
    assert_eq!(
        NugetManager::install_locations(),
        strings(&[
            r"C:\Program Files\NuGet\nuget.exe",
            r"C:\Program Files (x86)\NuGet\nuget.exe",
            r"%LOCALAPPDATA%\Microsoft\dotnet\dotnet.exe",
        ])
    );
    assert_eq!(
        CondaManager::pkgs_dir_candidates(Some(" D:\\pk ; E:\\q"), Some(r"C:\Users\u")),
        strings(&[
            r"C:\ProgramData\anaconda3\pkgs",
            r"C:\ProgramData\miniconda3\pkgs",
            r"C:\Users\%USERNAME%\.conda\pkgs",
            r"D:\pk",
            r"E:\q",
            r"C:\Users\u\.conda\pkgs",
        ])
    );
    assert_eq!(CondaManager::pkgs_dir_candidates(None, None).len(), 3);
}

#[test]
fn system_python_locations() {
    assert_eq!(
        PipManager::system_python_patterns(),
        vec![r"C:\Python*", r"C:\Program Files\Python*", r"C:\Program Files (x86)\Python*"]
    );
    assert_eq!(PipManager::site_packages(r"C:\Python312"), r"C:\Python312\Lib\site-packages");
    assert_eq!(PipManager::python_command(true, true), Ok("python3"));
    assert_eq!(PipManager::python_command(false, true), Ok("python"));
    assert_eq!(PipManager::python_command(false, false), Err(PkgError::ExecutableNotFound));
}

#[test]
fn browser_profile_roots_from_user_dirs() {
    assert_eq!(
        ChromeManager::user_data_path(Some(r"C:\Users\u\AppData\Local")),
        Some(r"C:\Users\u\AppData\Local\Google\Chrome\User Data".to_string())
    );
    assert_eq!(
        EdgeManager::user_data_path(Some(r"C:\Users\u\AppData\Local")),
        Some(r"C:\Users\u\AppData\Local\Microsoft\Edge\User Data".to_string())
    );
    assert_eq!(ChromeManager::user_data_path(None), None);
    // A cache directory with no parent stands for itself.
    assert_eq!(ChromeManager::user_data_path(Some(r"C:\")), Some(r"C:\Local\Google\Chrome\User Data".to_string()));
    assert_eq!(
        FirefoxManager::local_profiles_root(Some(r"C:\Users\u\AppData\Local")),
        Some(r"C:\Users\u\AppData\Local\Mozilla\Firefox\Profiles".to_string())
    );
    assert_eq!(
        FirefoxManager::roaming_profiles_root(Some(r"C:\Users\u\AppData\Roaming")),
        Some(r"C:\Users\u\AppData\Roaming\Mozilla\Firefox\Profiles".to_string())
    );
}

#[test]
fn parents_used_by_cleaners() {
    assert_eq!(GoModulesManager::glob_parent(r"C:\Temp\go-build*"), Some(r"C:\Temp".to_string()));
    assert_eq!(GoModulesManager::glob_parent(r"C:\Temp\go-build"), None);
    let s = winsweep::cleanup::recycle_script_for(r"C:\Temp\a.txt");
    assert!(s.contains(r"Namespace('C:\Temp').ParseName('a.txt')"));
    assert_eq!(
        s,
        winsweep::cleanup::recycle_script(r"C:\Temp", "a.txt")
    );
}

#[test]
fn ide_and_gradle_cache_descriptions() {
    use_descriptions();
}

fn use_descriptions() {
    let l = winsweep::package_manager::JetBrainsManager::cache_info(r"C:\Users\u\AppData\Local\JetBrains\IdeaIC2023.3\log", 7);
    assert_eq!(l.description, "JetBrains logs");
    let c = winsweep::package_manager::JetBrainsManager::cache_info(r"C:\Users\u\AppData\Local\JetBrains\IdeaIC2023.3\caches", 7);
    assert_eq!(c.description, "JetBrains cache");
    assert_eq!(winsweep::package_manager::VsCodeManager::cache_info(r"C:\Code\logs", 1).description, "VS Code logs");
    assert_eq!(winsweep::package_manager::VsCodeManager::cache_info(r"C:\Code\Cache", 1).description, "VS Code cache");
    let d = winsweep::package_manager::GradleManager::cache_descriptions();
    assert_eq!(d.len(), 4);
    assert_eq!(d[2], ("wrapper/dists", "Gradle wrapper distributions"));
    let g = winsweep::package_manager::GradleManager::cache_info(r"C:\Users\u\.gradle", d[2].0, d[2].1, 3);
    assert_eq!(g.path, r"C:\Users\u\.gradle\wrapper/dists");
    assert_eq!(g.description, "Gradle wrapper distributions");
}
