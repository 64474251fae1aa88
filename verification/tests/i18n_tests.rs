use winsweep::i18n::TranslationSet;

#[test]
fn test_english_key_resolution() {
    let ts = TranslationSet::load("en");
    assert_eq!(ts.get("app_name"), "WinSweep");
    assert_eq!(ts.get("nav_dashboard"), "Dashboard");
}

#[test]
fn test_spanish_override() {
    let ts = TranslationSet::load("es");
    assert_eq!(ts.get("app_name"), "WinSweep");
    assert_eq!(ts.get("nav_dashboard"), "Panel");
}

#[test]
fn test_fallback_to_key_on_missing() {
    let ts = TranslationSet::load("en");
    assert_eq!(ts.get("nonexistent_key_xyz"), "nonexistent_key_xyz");
}

#[test]
fn test_macro_works() {
    let ts = TranslationSet::load("en");
    assert_eq!(ts.get("app_name"), "WinSweep");
}
