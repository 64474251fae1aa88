use winsweep::package_manager::{GoModulesManager, PnpmManager, PoetryManager, YarnManager};
use winsweep::never_delete::should_never_delete;
use winsweep::path::parent_of;
use winsweep::path_order::{ends_with_path, path_less, paths_equal, sorted_unique_paths, starts_with_path};

fn strings(v: &[&str]) -> Vec<String> {
    v.iter().map(|s| s.to_string()).collect()
}

#[test]
fn path_order_follows_components() {
    // A drive prefix comes before anything else, then the root, then names.
    assert!(path_less("C:/x", "a"));
    assert!(path_less(r"\x", "a"));
    assert!(path_less(r"C:\x", "C:x"));
    // `..` comes before any name.
    assert!(path_less(r"..\x", "a"));
    // A path comes before the paths under it.
    assert!(path_less(r"C:\a", r"C:\a\b"));
    // Names compare by code points: upper case before lower case, `.` first.
    assert!(path_less(r"C:\Users\u\.cache", r"C:\Users\u\AppData"));
    assert!(path_less(r"C:\L\Temp", r"C:\L\pnpm"));
    assert!(!path_less(r"C:\a", r"C:\a"));
    // Drive letters compare in upper case; separators and `.` parts do not matter.
    assert!(paths_equal(r"c:\x\.\y", "C:/x//y/"));
    assert!(!paths_equal(r"C:\x", r"D:\x"));
}

#[test]
fn sort_and_dedup_keeps_first_of_each_group() {
    let paths = strings(&["b", "a", "C:/x", r"c:\x", "a"]);
    assert_eq!(sorted_unique_paths(&paths), strings(&["C:/x", "a", "b"]));
    assert_eq!(sorted_unique_paths(&[]), Vec::<String>::new());
}

#[test]
fn pnpm_cache_paths_sorted() {
    let r = PnpmManager::cache_paths(
        Some("C:\\Users\\u\\AppData\\Local\\pnpm\\store\\v3\n"),
        Some(r"C:\Users\u"),
        Some(r"C:\Users\u\AppData\Local"),
        Some(r"C:\Users\u\AppData\Local\Temp"),
    );
    assert_eq!(
        r,
        strings(&[
            r"C:\Users\u\.pnpm-cache",
            r"C:\Users\u\.pnpm-store",
            r"C:\Users\u\AppData\Local\Temp\pnpm",
            r"C:\Users\u\AppData\Local\pnpm",
            r"C:\Users\u\AppData\Local\pnpm\store\v3",
        ])
    );
    // The store under LOCALAPPDATA is the same path as the local cache: kept once.
    let r = PnpmManager::cache_paths(Some("C:/Users/u/AppData/Local/pnpm"), Some(r"C:\Users\u"), Some(r"C:\Users\u\AppData\Local"), None);
    assert_eq!(r, strings(&[r"C:\Users\u\.pnpm-cache", r"C:\Users\u\.pnpm-store", "C:/Users/u/AppData/Local/pnpm"]));
}

#[test]
fn poetry_cache_paths_sorted() {
    let r = PoetryManager::cache_paths(Some("C:\\Users\\u\\AppData\\Local\\pypoetry\\Cache\n"), Some(r"C:\Users\u"));
    assert_eq!(
        r,
        strings(&[
            r"C:\Users\u\.cache\pypoetry",
            r"C:\Users\u\.poetry\artifacts",
            r"C:\Users\u\.poetry\cache",
            r"C:\Users\u\.poetry\venv",
            r"C:\Users\u\AppData\Local\pypoetry\Cache",
        ])
    );
    assert_eq!(PoetryManager::cache_paths(Some("   "), None).len(), 4);
}

#[test]
fn yarn_cache_paths_sorted() {
    let berry = YarnManager::new(Some("yarn.cmd".into()), Some("4.1.0")).unwrap();
    assert_eq!(
        berry.cache_paths(Some("undefined\n"), Some(r"C:\Users\u"), None, None),
        strings(&[r"C:\Users\u\.yarn/berry/cache", r"C:\Users\u\.yarn/berry/linker", r"C:\Users\u\.yarn/berry/releases"])
    );
    assert_eq!(
        berry.cache_paths(Some(" D:\\yc "), Some(r"C:\Users\u"), None, None),
        strings(&[
            r"C:\Users\u\.yarn/berry/cache",
            r"C:\Users\u\.yarn/berry/linker",
            r"C:\Users\u\.yarn/berry/releases",
            r"D:\yc",
        ])
    );
    let classic = YarnManager::new(Some("yarn.cmd".into()), Some("1.22.19")).unwrap();
    assert_eq!(
        classic.cache_paths(None, Some(r"C:\Users\u"), Some(r"C:\Users\u\AppData\Local"), Some(r"C:\Temp")),
        strings(&[r"C:\Temp\yarn-*", r"C:\Users\u\.yarn-cache", r"C:\Users\u\AppData\Local\Yarn\Cache"])
    );
}

#[test]
fn go_cache_paths_sorted() {
    let r = GoModulesManager::cache_paths(
        Some("C:\\Users\\u\\AppData\\Local\\go-build\n"),
        Some("C:\\Users\\u\\go\\pkg\\mod\n"),
        Some(r"C:\Users\u"),
    );
    assert_eq!(
        r,
        strings(&[r"C:\Users\u\AppData\Local\go-build", r"C:\Users\u\go\build", r"C:\Users\u\go\pkg\mod"])
    );
}

#[test]
fn drive_roots_are_never_deleted_whatever_the_letter_case() {
    // `C:\Windows\System32` starts with `c:\`: the drive letter compares in upper case.
    assert!(starts_with_path(r"C:\Windows\System32", r"c:\"));
    assert!(should_never_delete(r"c:\"));
    assert!(should_never_delete(r"C:\"));
    assert!(ends_with_path(r"C:\Users\u\.nuget\packages\", "packages"));
    assert!(!ends_with_path(r"C:\Users\u\.nuget\mypackages", "packages"));
}

#[test]
fn parent_follows_path_parent() {
    let p = |s: &str| parent_of(s);
    assert_eq!(p(r"C:\a\b"), Some(r"C:\a".to_string()));
    assert_eq!(p(r"C:\a\b\"), Some(r"C:\a".to_string()));
    assert_eq!(p(r"C:\a"), Some(r"C:\".to_string()));
    assert_eq!(p(r"C:\"), None);
    assert_eq!(p("C:"), None);
    assert_eq!(p("C:a"), Some("C:".to_string()));
    assert_eq!(p(r"C:a\b"), Some("C:a".to_string()));
    assert_eq!(p(r"a\b"), Some("a".to_string()));
    assert_eq!(p("a"), Some(String::new()));
    assert_eq!(p(""), None);
    assert_eq!(p("."), Some(String::new()));
    assert_eq!(p(r".\a"), Some(".".to_string()));
    assert_eq!(p(r"a\.\b"), Some("a".to_string()));
    assert_eq!(p(r"a\b\.\"), Some("a".to_string()));
    assert_eq!(p(r"\a"), Some(r"\".to_string()));
    assert_eq!(p(r"C:/x//y/./"), Some("C:/x".to_string()));
}

#[test]
fn relative_link_targets_resolve_against_the_parent() {
    use_parent_in_resolver();
}

fn use_parent_in_resolver() {
    let j = winsweep::junction::JunctionDetector::new();
    let mut r = j.resolve_target(r"C:\data\link");
    let _ = r.next_step();
    r.follow(r"..\other");
    assert_eq!(r.finish(), r"C:\data\..\other");
}
