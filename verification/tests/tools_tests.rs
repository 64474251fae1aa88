use winsweep::tools::ToolDetector;

#[test]
fn test_parse_nuget_version() {
    let banner = "NuGet Version: 6.11.0.123\nusage: NuGet <command> [args]";
    assert_eq!(ToolDetector::parse_nuget_version(banner), Some("6.11.0.123".to_string()));
    assert_eq!(ToolDetector::parse_nuget_version("no version here"), None);
}
