use winsweep::audit::{needs_rotation, take_recent, AuditLogger, AuditOperation};
use winsweep::cleanup::{not_deleted, CleanupManager, CleanupRun, ItemAction, ItemOutcome};
use winsweep::types::ScanResult;
use winsweep::never_delete::matches_pattern as name_matches;
use winsweep::docker::{
    container_listing_complete, parse_container_list, parse_docker_time, parse_network_list, DockerClient,
};
use winsweep::i18n::TranslationSet;
use winsweep::ipc::{decode_length, encode_frame, server_step, IpcError, Received, ServerStep};
use winsweep::junction::{JunctionDetector, ResolveStep, IO_REPARSE_TAG_MOUNT_POINT};
use winsweep::package_manager::{
    command_error, total_cache_size, CargoManager, CleanTally, CommandOutcome, ManagerKind,
    MavenManager, NpmManager, PackageManagerRegistry, PkgError, YarnManager, PackageManager,
};
use winsweep::path::{join_path, path_is_absolute, push_path_str};
use winsweep::restart::from_wide_array;
use winsweep::scanner::{is_known_artifact_dir, match_artifact_rule, EntryAction, FileAge, Scanner};
use winsweep::services::ServiceStartType;
use winsweep::signatures::{glob_to_regex, matches_pattern};
use winsweep::text::replace_all;
use winsweep::tools::{file_version_text, ToolDetector, ToolProbe, ToolProbes};
use winsweep::types::{FileType, ProjectType, ScanConfig, Timestamp};
use winsweep::updater::version_gt;
use winsweep::windows_api::{
    final_path_from_wide, process_name, registry_value_text, with_hidden, ApiError, ProcessInfo,
    WindowsApi,
};
use winsweep::windows_edition::{WindowsEdition, WindowsEditionDetector};
use winsweep::wsl::{RegistryDistribution, WslDetector, WslProbes, WslState, WslVersion};

fn wide(s: &str) -> Vec<u16> {
    s.encode_utf16().collect()
}

fn probes_with(list: Option<&str>, registry: Vec<RegistryDistribution>) -> WslProbes {
    WslProbes {
        wsl_exe_in_path: true,
        package_family_lists: vec![],
        install_state: None,
        lxss_default_distribution: false,
        lxss_distribution_keys: vec![],
        wsl_files: vec![],
        kernel_file_path: Some(r"C:\Windows\System32\lxss\tools\kernel".to_string()),
        kernel_files: vec![],
        status_output: None,
        build_number: Some("19045".to_string()),
        manage_help_succeeded: false,
        registry_distributions: registry,
        list_output: list.map(|s| s.to_string()),
    }
}

#[test]
fn wsl_list_entries_replace_registry_entries_of_the_same_name() {
    let reg = RegistryDistribution {
        name: "Ubuntu".to_string(),
        registered: true,
        state: Some("2".to_string()),
        version: Some("2".to_string()),
        base_path: Some(r"C:\wsl\ubuntu".to_string()),
        vhdx_file_path: Some(r"C:\wsl\ubuntu\ext4.vhdx".to_string()),
    };
    let list = "  NAME      STATE           VERSION\n  Ubuntu    Running         2 *\n  Debian    Stopped         1\n";
    let d = WslDetector::new(probes_with(Some(list), vec![reg]));
    assert!(d.has_wsl());
    assert!(d.has_wsl2());
    assert!(!d.has_manage_command());
    assert_eq!(d.distributions().len(), 2);
    let u = d.get_distribution("Ubuntu").unwrap();
    assert_eq!(u.state, WslState::Running);
    assert_eq!(u.version, WslVersion::Wsl2);
    assert!(u.default);
    assert_eq!(u.vhdx_path, None);
    let deb = d.get_distribution("Debian").unwrap();
    assert_eq!(deb.version, WslVersion::Wsl1);
    assert_eq!(d.get_wsl2_distributions().len(), 1);
    assert!(d.get_distribution("Arch").is_none());
}

#[test]
fn wsl_registry_entry_gets_rootfs_and_vhdx() {
    let reg = RegistryDistribution {
        name: "Ubuntu".to_string(),
        registered: true,
        state: Some("1".to_string()),
        version: Some("2".to_string()),
        base_path: Some(r"C:\wsl\ubuntu".to_string()),
        vhdx_file_path: Some(r"C:\wsl\ubuntu\ext4.vhdx".to_string()),
    };
    let d = WslDetector::new(probes_with(None, vec![reg]));
    let u = d.get_distribution("Ubuntu").unwrap();
    assert_eq!(u.filesystem_path.as_deref(), Some(r"C:\wsl\ubuntu\rootfs"));
    assert_eq!(u.vhdx_path.as_deref(), Some(r"C:\wsl\ubuntu\ext4.vhdx"));
    assert!(d.has_vhdx("Ubuntu", true));
    assert!(!d.has_vhdx("Ubuntu", false));
    assert_eq!(d.get_total_wsl2_size(&[Some(4096)]), 4096);
}

#[test]
fn cleanup_refuses_never_delete_items_and_sums_freed_space() {
    let m = CleanupManager::new(false, false);
    assert_eq!(m.plan_item(&scan_item(r"C:\Windows\System32\kernel32.dll", 10, true)), ItemAction::Refuse);
    assert_eq!(
        m.plan_item(&scan_item(r"C:\project\target\debug\app.exe", 10, true)),
        ItemAction::CheckLockThenDelete { use_recycle_bin: false }
    );
    let mut run = CleanupRun::new();
    run.record_refused(r"C:\Windows\System32\kernel32.dll");
    run.record(r"C:\project\a.tmp", 100, ItemOutcome::Deleted);
    run.record(r"C:\project\b.tmp", 50, ItemOutcome::Deleted);
    run.record(r"C:\project\c.tmp", 70, ItemOutcome::Locked);
    run.record(r"C:\project\d.tmp", 70, ItemOutcome::Failed("denied".to_string()));
    let r = run.finish(7, 12);
    assert_eq!(r.items_deleted, vec![r"C:\project\a.tmp".to_string(), r"C:\project\b.tmp".to_string()]);
    assert_eq!(r.space_freed_bytes, 150);
    assert_eq!(r.items_failed.len(), 3);
    assert_eq!(r.items_failed[0].1, "In NEVER_DELETE list");
    assert_eq!(r.items_failed[1].1, "File is locked");
    assert_eq!(r.items_failed[2].1, "denied");
    assert_eq!(
        not_deleted(&[ "a".to_string(), "b".to_string()], &[false, true]),
        vec!["b".to_string()]
    );
}

#[test]
fn ipc_frame_header_reads_back_the_length() {
    let f = encode_frame(b"{\"type\":\"Ping\"}");
    assert_eq!(&f[..4], &[15, 0, 0, 0]);
    assert_eq!(decode_length([f[0], f[1], f[2], f[3]]), Ok(15));
    assert_eq!(decode_length([1, 0, 0xa0, 0]), Err(IpcError::MessageTooLarge(0xa00001)));
    assert_eq!(decode_length([0, 0, 0xa0, 0]), Ok(0xa00000));
    assert!(matches!(server_step(Received::Message(3, true)), ServerStep::ReplyPong));
    assert!(matches!(server_step(Received::Message(3, false)), ServerStep::Forward(3)));
    assert!(matches!(server_step::<u8>(Received::Disconnected), ServerStep::Stop));
}

#[test]
fn spanish_falls_back_to_english_then_key() {
    let ts = TranslationSet::load("es");
    assert_eq!(ts.get("nav_dashboard"), "Panel");
    assert_eq!(ts.get("app_name"), "WinSweep");
    assert_eq!(ts.get("missing"), "missing");
    let fr = TranslationSet::load("fr");
    assert_eq!(fr.get("nav_dashboard"), "Dashboard");
}

#[test]
fn version_order_is_strict() {
    assert!(!version_gt("1.2.0", "1.2.0"));
    assert!(version_gt("1.10.0", "1.9.0"));
    assert!(!version_gt("1.9.0", "1.10.0"));
    assert!(version_gt("1.0.0.1", "1.0.0"));
}

#[test]
fn start_type_raw_roundtrip() {
    for t in [
        ServiceStartType::Boot,
        ServiceStartType::System,
        ServiceStartType::Automatic,
        ServiceStartType::Manual,
        ServiceStartType::Disabled,
    ] {
        assert_eq!(ServiceStartType::from_raw(t.to_raw().unwrap()), t);
    }
    assert_eq!(ServiceStartType::Unknown.to_raw(), None);
}

#[test]
fn audit_reads_newest_first_up_to_the_limit() {
    let parsed = vec![Some(1), None, Some(2), Some(3), None];
    assert_eq!(take_recent(parsed.clone(), Some(2)), vec![3, 2]);
    assert_eq!(take_recent(parsed.clone(), None), vec![3, 2, 1]);
    assert_eq!(take_recent(parsed, Some(0)), vec![3]);
    assert!(needs_rotation(3 * 1024 * 1024, 2));
    assert!(!needs_rotation(3 * 1024 * 1024 - 1, 2));
    let l = AuditLogger::new(r"C:\data\WinSweep", Some("me".to_string()), 42);
    assert_eq!(l.log_file(), r"C:\data\WinSweep\audit.log");
    let e = l.security_violation_entry(1, Timestamp { secs: 0, nanos: 0 }, "x".into(), "y".into(), true);
    assert_eq!(e.operation, AuditOperation::SecurityViolation);
    assert!(!e.success);
    assert_eq!(e.error_message.as_deref(), Some("Operation blocked for security reasons"));
}

#[test]
fn scanner_artifact_rules() {
    assert!(is_known_artifact_dir(r"C:\proj\node_modules"));
    assert!(!is_known_artifact_dir(r"C:\proj\src"));
    let r = match_artifact_rule("target", &[false, false, false, false, false, false, false, false,
        false, false, false, false, false, true]).unwrap();
    assert_eq!(r.project_type, ProjectType::Maven);
    assert!(match_artifact_rule("target", &[]).is_none());
    let py = match_artifact_rule("__pycache__", &[]).unwrap();
    assert_eq!(py.project_type, ProjectType::Python);
    let s = Scanner::new(ScanConfig { min_age_days: Some(1), ..ScanConfig::default() });
    assert_eq!(s.entry_action(true, false, false, false, true), EntryAction::Skip);
    assert_eq!(s.entry_action(true, true, false, false, true), EntryAction::TryArtifact);
    assert_eq!(s.entry_action(false, false, true, false, false), EntryAction::Skip);
    assert_eq!(s.entry_action(false, false, true, true, false), EntryAction::ReportLink(FileType::Junction));
    assert_eq!(s.entry_action(false, false, false, false, false), EntryAction::ReportFile);
    assert!(s.artifact_rule_for(r"C:\p\__pycache__", &[], FileAge::Secs(10), false).is_none());
    assert!(s.artifact_rule_for(r"C:\p\__pycache__", &[], FileAge::Secs(86400), false).is_some());
    assert!(s.artifact_rule_for(r"C:\p\__pycache__", &[], FileAge::Unknown, true).is_none());
}

#[test]
fn tools_from_probes() {
    let none = ToolProbe { path: None, output: None };
    let probes = ToolProbes {
        diskpart: ToolProbe { path: Some("diskpart.exe".into()), output: file_version_text(0xFEEF04BD, 0x000A_0000, 0x4A65_0001) },
        diskpart_version_failed: false,
        wsl: none.clone(),
        docker: none.clone(),
        powershell: none.clone(),
        pwsh: ToolProbe { path: Some("pwsh.exe".into()), output: Some(" 7.4.1\n".into()) },
        npm: none.clone(),
        pip: none.clone(),
        cargo: none.clone(),
        nuget: none.clone(),
        git: none.clone(),
        vscode: ToolProbe { path: Some("code.exe".into()), output: Some("1.85.0\nabc\nx64\n".into()) },
        schtasks: none.clone(),
        sc: none.clone(),
        wevtutil: none,
    };
    let d = ToolDetector::new(&probes).unwrap();
    assert_eq!(d.get_tools().len(), 14);
    assert_eq!(d.get_tool("diskpart").unwrap().version.as_deref(), Some("10.0.19045.1"));
    assert_eq!(d.get_tool("pwsh").unwrap().version.as_deref(), Some("7.4.1"));
    assert_eq!(d.get_tool("vscode").unwrap().version.as_deref(), Some("1.85.0"));
    assert!(!d.is_available("powershell"));
    let missing: Vec<&str> = d.get_missing_required().iter().map(|t| t.name.as_str()).collect();
    assert_eq!(missing, vec!["powershell"]);
    assert_eq!(d.get_available_optional().len(), 2);
    assert_eq!(file_version_text(0, 1, 2), None);
    let mut failing = probes.clone();
    failing.diskpart_version_failed = true;
    assert!(ToolDetector::new(&failing).is_err());
}

#[test]
fn nuget_banner_in_any_case_and_missing_word() {
    assert_eq!(ToolDetector::parse_nuget_version("x\n  NUGET VERSION:  5.0 extra"), Some("5.0".to_string()));
    assert_eq!(ToolDetector::parse_nuget_version("NuGet Version:\nNuGet Version: 1.0"), None);
}

#[test]
fn package_manager_paths_and_tallies() {
    assert_eq!(
        MavenManager::resolve_local_repo(None, Some(r"C:\Users\me"), Some("<settings>\n  <localRepository>repo2</localRepository>\n</settings>")),
        r"C:\Users\me\repo2"
    );
    assert_eq!(
        MavenManager::resolve_local_repo(Some(r"D:\m2"), Some(r"C:\Users\me"), None),
        r"D:\m2"
    );
    assert_eq!(
        MavenManager::resolve_local_repo(Some("relative"), Some(r"C:\Users\me"), None),
        r"C:\Users\me\.m2\repository"
    );
    assert_eq!(MavenManager::resolve_local_repo(None, None, None), r".m2\repository");
    let cargo = CargoManager::new(None);
    assert_eq!(cargo.cargo_home_for(None, Some(r"C:\Users\me")), Ok(r"C:\Users\me\.cargo".to_string()));
    assert_eq!(cargo.cargo_home_for(Some(r"E:\cargo"), None), Ok(r"E:\cargo".to_string()));
    assert_eq!(cargo.cargo_home_for(None, None), Err(PkgError::NoHomeDirectory));
    assert!(CargoManager::is_target_dir(r"C:\proj\target"));
    assert!(!CargoManager::is_target_dir(r"C:\proj\targets"));
    let npm = NpmManager::new(Some("npm.cmd".into()));
    assert_eq!(npm.cache_path_for(Some(" C:\\npm-cache \n"), None, false), Ok(r"C:\npm-cache".to_string()));
    let npm0 = NpmManager::new(None);
    assert_eq!(npm0.cache_path_for(Some("ignored"), Some(r"C:\Users\me"), false), Ok(r"C:\Users\me\.npm".to_string()));
    let mut tally = CleanTally::new("npm");
    tally.record_deletion(r"C:\a", Ok(10));
    tally.record_deletion(r"C:\b", Err("busy".to_string()));
    let r = tally.finish(3);
    assert_eq!((r.space_freed, r.items_deleted), (10, 1));
    assert_eq!(r.errors, vec![r"Failed to delete C:\b: busy".to_string()]);
    assert_eq!(total_cache_size(&[Some(1), None, Some(2)]), 3);
    assert_eq!(
        command_error("go clean -cache", &CommandOutcome::Failed("x".into())),
        Some("go clean -cache failed: x".to_string())
    );
    let reg = PackageManagerRegistry::new();
    assert_eq!(reg.get_managers().len(), 8);
    assert_eq!(reg.get_by_name("go"), Some(ManagerKind::GoModules));
    assert_eq!(reg.get_by_name("bundler"), None);
    let all = reg.get_managers().to_vec();
    let installed = reg.get_installed(&[false, true, false, false, true]);
    assert_eq!(installed, vec![all[1], all[4]]);
    assert!(reg.get_installed(&[]).is_empty());
    let yarn = YarnManager::new(Some("yarn.cmd".into()), Some("4.1.0")).unwrap();
    assert_eq!(yarn.display_name(), "Yarn Berry");
    let classic = YarnManager::new(Some("yarn.cmd".into()), Some("1.22.19")).unwrap();
    assert_eq!(classic.display_name(), "Yarn Classic");
}

#[test]
fn paths_join_as_windows_does() {
    assert_eq!(join_path(r"C:\a", "b"), r"C:\a\b");
    assert_eq!(join_path(r"C:\a\", "b"), r"C:\a\b");
    assert_eq!(join_path("C:", "b"), "C:b");
    assert_eq!(push_path_str(r"C:\a", r"\b"), r"C:\b");
    assert_eq!(push_path_str(r"C:\a", r"D:\b"), r"D:\b");
    assert!(path_is_absolute(r"C:\x"));
    assert!(path_is_absolute(r"\\server\share"));
    assert!(!path_is_absolute(r"C:x"));
    assert_eq!(replace_all("%A%\\%A%", "%A%", "z"), "z\\z");
}

#[test]
fn wrappers_change_their_input() {
    assert_eq!(WindowsEditionDetector::parse_edition_string("WINDOWS 10 HOME"), WindowsEdition::Home);
    assert_eq!(from_wide_array(&[0x48, 0x69, 0, 0x41]), "Hi");
    let t = parse_docker_time("2024-01-01T00:00:00Z");
    assert_eq!(t, Timestamp { secs: 1_704_067_200, nanos: 0 });
    assert_eq!(parse_docker_time("yesterday"), Timestamp { secs: 0, nanos: 0 });
    assert!(matches_pattern(r"C:\game\x.uproject", "*.uproject", false));
    assert!(!matches_pattern(r"C:\game\x.txt", "*.uproject", false));
    assert_eq!(glob_to_regex("*.py"), r".*\.py");
    let mut units = wide("HKLM");
    units.push(0);
    assert_eq!(registry_value_text(&units), Ok("HKLM".to_string()));
    assert_eq!(registry_value_text(&[0xD800]), Err(ApiError::InvalidUtf16));
    let mut buf = wide(r"\\?\C:\data");
    buf.push(0);
    assert_eq!(final_path_from_wide(&buf, buf.len() - 1), Ok(r"C:\data".to_string()));
    assert_eq!(final_path_from_wide(&buf, buf.len()), Err(ApiError::BufferTooSmall));
    assert_eq!(process_name(b"explorer.exe\0junk"), "explorer.exe");
    let api = WindowsApi::new();
    let procs = vec![ProcessInfo { pid: 4, ppid: 0, name: "System".to_string() }];
    assert!(api.is_process_running(&procs, "SYSTEM"));
    assert!(!api.is_process_running(&procs, "idle"));
    assert_eq!(with_hidden(0x20, true), 0x22);
    assert_eq!(with_hidden(0x22, false), 0x20);
}

#[test]
fn junction_targets_and_cycles() {
    let j = JunctionDetector::new();
    let target = j.target_from_name(true, IO_REPARSE_TAG_MOUNT_POINT, &wide(r"\??\D:\real")).unwrap();
    assert_eq!(target, r"D:\real");
    assert!(j.target_from_name(true, 7, &[]).is_err());
    assert!(j.target_from_name(false, IO_REPARSE_TAG_MOUNT_POINT, &[]).is_err());
    let mut r = j.resolve_target(r"C:\link");
    assert!(matches!(r.next_step(), ResolveStep::Query(_)));
    r.follow(r"C:\link");
    assert!(matches!(r.next_step(), ResolveStep::Circular));
    // A chain that comes back to the same path written differently is circular too.
    let mut r = j.resolve_target(r"C:\a\link");
    assert!(matches!(r.next_step(), ResolveStep::Query(_)));
    r.follow("c:/a/link/");
    assert!(matches!(r.next_step(), ResolveStep::Circular));
    let mut r = j.resolve_target(r"C:\a\link");
    assert!(matches!(r.next_step(), ResolveStep::Query(_)));
    r.follow(r"D:\target");
    assert!(matches!(r.next_step(), ResolveStep::Query(_)));
    assert_eq!(r.finish(), r"D:\target");
}

#[test]
fn docker_listings() {
    let ps = "abc\tweb\tnginx\tUp 2 hours\t2024-01-01T00:00:00Z\t127.0.0.1:8080:80/tcp\t10\t20\n\nshort\tline\n";
    assert!(container_listing_complete(ps));
    assert!(!container_listing_complete("a\tb\tc\td\n"));
    let cs = parse_container_list(ps);
    assert_eq!(cs.len(), 1);
    assert_eq!(cs[0].ports.len(), 1);
    assert_eq!(cs[0].ports[0].container_port, 80);
    assert_eq!(cs[0].ports[0].host_port, Some(8080));
    assert_eq!(cs[0].size_rw, Some(10));
    let ports = DockerClient::parse_ports("0.0.0.0:8080:80/tcp, 443/udp");
    assert_eq!(ports.len(), 1);
    assert_eq!(ports[0].host_port, Some(8080));
    let nets = parse_network_list("id1\tbridge\tbridge\tlocal\tfalse\nid2\tmine\tbridge\tlocal\ttrue\n");
    assert_eq!(nets.len(), 2);
    assert!(nets[1].internal);
    let c = DockerClient::new(None, true, Some(" 1.43 \n"));
    assert_eq!(c.api_version(), "1.43");
    let c2 = DockerClient::new(None, false, Some("1.43"));
    assert_eq!(c2.api_version(), "1.41");
}

fn scan_item(path: &str, size: u64, safe: bool) -> ScanResult {
    ScanResult {
        id: 1,
        path: path.to_string(),
        size_bytes: size,
        file_type: FileType::File,
        project_type: None,
        last_modified: Timestamp { secs: 0, nanos: 0 },
        is_safe_to_delete: safe,
        deletion_reason: if safe { None } else { Some("In NEVER_DELETE list".to_string()) },
    }
}

#[test]
fn test_never_delete_protection() {
    let m = CleanupManager::new(false, false);
    let item = scan_item(r"C:\Users\me\AppData\Local\Temp\tmp1\system32\test.txt", 12, false);
    let mut run = CleanupRun::new();
    match m.plan_item(&item) {
        ItemAction::Refuse => run.record_refused(&item.path),
        ItemAction::RefuseUnsafe => run.record_unsafe(&item),
        ItemAction::CheckLockThenDelete { .. } => run.record(&item.path, item.size_bytes, ItemOutcome::Deleted),
    }
    let r = run.finish(0, 0);
    assert_eq!(r.items_deleted.len(), 0);
    assert_eq!(r.items_failed.len(), 1);
    assert_eq!(r.items_failed[0].1, "In NEVER_DELETE list");
}

#[test]
fn unsafe_item_without_reason_is_refused_with_general_reason() {
    let m = CleanupManager::new(true, false);
    let mut item = scan_item(r"C:\project\notes.tmp", 5, false);
    item.deletion_reason = None;
    assert_eq!(m.plan_item(&item), ItemAction::RefuseUnsafe);
    let mut run = CleanupRun::new();
    run.record_unsafe(&item);
    let r = run.finish(0, 0);
    assert_eq!(r.items_failed, vec![(r"C:\project\notes.tmp".to_string(), "Not safe to delete".to_string())]);
    let safe = scan_item(r"C:\project\notes.tmp", 5, true);
    assert_eq!(m.plan_item(&safe), ItemAction::CheckLockThenDelete { use_recycle_bin: true });
}

#[test]
fn file_pattern_needs_the_dot() {
    assert!(name_matches("notes.exe", "*.exe"));
    assert!(name_matches("APP.EXE", "*.exe"));
    assert!(!name_matches("backup_exe", "*.exe"));
}

#[test]
fn relative_link_target_belongs_to_the_link_that_holds_it() {
    let j = JunctionDetector::new();
    let mut r = j.resolve_target(r"C:\a\link1");
    assert!(matches!(r.next_step(), ResolveStep::Query(_)));
    r.follow(r"C:\b\link2");
    assert!(matches!(r.next_step(), ResolveStep::Query(_)));
    r.follow("data");
    assert!(matches!(r.next_step(), ResolveStep::Query(_)));
    assert_eq!(r.finish(), r"C:\b\data");
}
