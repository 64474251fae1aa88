use winsweep::cleanup::{CleanupManager, ItemOutcome};
use winsweep::home_edition::{CompactStep, HomeEditionCompat, WslCompactMethod};
use winsweep::junction::{JunctionError, IO_REPARSE_TAG_MOUNT_POINT, IO_REPARSE_TAG_SYMLINK};
use winsweep::link_chain::{resolve_chain, substitute_name};
use winsweep::package_manager::{ManagerKind, PackageCleanResult, PackageManagerRegistry};
use winsweep::restart::{
    safe_step, ApplicationStatus, ApplicationType, RebootReason, RestartApplication, RestartManager, SafeAction,
    SafeEvent, SafePhase,
};
use winsweep::types::{FileType, ScanResult, Timestamp};

fn app(name: &str, status: ApplicationStatus) -> RestartApplication {
    RestartApplication {
        application_name: name.to_string(),
        application_type: ApplicationType::Application,
        service_short_name: None,
        application_status: status,
        process_id: Some(7),
        can_restart: true,
        can_shutdown: true,
    }
}

#[test]
fn session_leaves_out_unnamed_applications() {
    let key: Vec<u16> = "abc\0\0".encode_utf16().collect();
    let m = RestartManager::new(&key, 3);
    let s = m.get_session(vec![app("", ApplicationStatus::Failed), app("editor", ApplicationStatus::Running)]);
    assert_eq!(s.session_key, "abc");
    assert_eq!(s.applications.len(), 1);
    assert_eq!(s.applications[0].application_name, "editor");
    // The failed entry had no name, so it does not call for a reboot.
    assert_eq!(s.reboot_reason, RebootReason::NotRequired);
}

#[test]
fn safe_operation_shuts_down_runs_and_restarts() {
    let mut phase = SafePhase::Session;
    assert!(matches!(safe_step(&mut phase, SafeEvent::SessionTaken(2)), SafeAction::ShutDown));
    assert!(matches!(safe_step(&mut phase, SafeEvent::ShutDown(Ok(()))), SafeAction::RunOperation));
    assert!(matches!(safe_step(&mut phase, SafeEvent::OperationRan), SafeAction::Restart));
    assert!(matches!(
        safe_step(&mut phase, SafeEvent::Restarted(Err("busy".to_string()))),
        SafeAction::ReturnResult
    ));
    assert_eq!(phase, SafePhase::Finished);
    let mut phase = SafePhase::Session;
    assert!(matches!(safe_step(&mut phase, SafeEvent::SessionTaken(0)), SafeAction::RunOperation));
    assert!(matches!(safe_step(&mut phase, SafeEvent::OperationRan), SafeAction::ReturnResult));
    let mut phase = SafePhase::Session;
    safe_step(&mut phase, SafeEvent::SessionTaken(1));
    match safe_step(&mut phase, SafeEvent::ShutDown(Err("denied".to_string()))) {
        SafeAction::Fail(e) => assert_eq!(e, "denied"),
        _ => panic!("a failed shutdown ends the operation"),
    }
}

#[test]
fn compaction_takes_the_first_method_that_works() {
    let r = HomeEditionCompat::compaction_outcome(false, true, true);
    assert_eq!(r.method, WslCompactMethod::Wslconfig);
    assert!(r.success);
    let r = HomeEditionCompat::compaction_outcome(false, false, false);
    assert_eq!(r.method, WslCompactMethod::Manual);
    assert_eq!(r.message, "Automatic compaction failed. See manual instructions.");
    assert!(matches!(HomeEditionCompat::compaction_step(None), CompactStep::Try(WslCompactMethod::WslManage)));
    assert!(matches!(
        HomeEditionCompat::compaction_step(Some((WslCompactMethod::Wslconfig, false))),
        CompactStep::Try(WslCompactMethod::Diskpart)
    ));
}

#[test]
fn registry_clean_all_turns_failures_into_results() {
    let reg = PackageManagerRegistry::new();
    let installed = [true, false, false, true, false, false, false, false];
    assert_eq!(reg.get_installed(&installed), vec![ManagerKind::Npm, ManagerKind::Pip]);
    let ok = PackageCleanResult {
        package_manager: "npm".to_string(),
        space_freed: 10,
        items_deleted: 1,
        errors: vec![],
        duration_ms: 4,
    };
    let r = reg.clean_all(&installed, vec![Ok(ok), Err("pip broke".to_string())]);
    assert_eq!(r.len(), 2);
    assert_eq!(r[0].space_freed, 10);
    assert_eq!(r[1].package_manager, "pip");
    assert_eq!(r[1].errors, vec!["pip broke".to_string()]);
    assert_eq!((r[1].space_freed, r[1].items_deleted), (0, 0));
}

fn item(path: &str, size: u64, safe: bool) -> ScanResult {
    ScanResult {
        id: 1,
        path: path.to_string(),
        size_bytes: size,
        file_type: FileType::File,
        project_type: None,
        last_modified: Timestamp { secs: 0, nanos: 0 },
        is_safe_to_delete: safe,
        deletion_reason: None,
    }
}

#[test]
fn cleanup_run_accounts_each_item_once_in_order() {
    let m = CleanupManager::new(false, false);
    let items = vec![
        item(r"C:\p\a.tmp", 100, true),
        item(r"C:\Windows\System32\kernel32.dll", 5, true),
        item(r"C:\p\b.tmp", 7, false),
        item(r"C:\p\c.tmp", 9, true),
        item(r"C:\p\d.tmp", 50, true),
    ];
    let outcomes = vec![
        ItemOutcome::Deleted,
        ItemOutcome::Deleted,
        ItemOutcome::Deleted,
        ItemOutcome::Locked,
        ItemOutcome::Deleted,
    ];
    let r = m.run_cleanup(&items, &outcomes, 42, 3);
    assert_eq!(r.items_deleted, vec![r"C:\p\a.tmp".to_string(), r"C:\p\d.tmp".to_string()]);
    assert_eq!(r.space_freed_bytes, 150);
    let failed: Vec<(&str, &str)> = r.items_failed.iter().map(|(p, e)| (p.as_str(), e.as_str())).collect();
    assert_eq!(
        failed,
        vec![
            (r"C:\Windows\System32\kernel32.dll", "In NEVER_DELETE list"),
            (r"C:\p\b.tmp", "Not safe to delete"),
            (r"C:\p\c.tmp", "File is locked"),
        ]
    );
    assert_eq!(r.scan_id, 42);
}

fn links(v: &[(&str, &str)]) -> Vec<(String, String)> {
    v.iter().map(|(a, b)| (a.to_string(), b.to_string())).collect()
}

#[test]
fn resolve_chain_follows_links_to_the_end() {
    let l = links(&[(r"C:\a\link1", r"C:\b\link2"), (r"C:\b\link2", "data")]);
    assert_eq!(resolve_chain(r"C:\a\link1", &l), Ok(r"C:\b\data".to_string()));
    assert_eq!(resolve_chain(r"C:\plain", &l), Ok(r"C:\plain".to_string()));
    let cycle = links(&[(r"C:\x", r"C:\y"), (r"C:\y", r"c:/x")]);
    assert_eq!(resolve_chain(r"C:\x", &cycle), Err(JunctionError::CircularReference));
}

fn reparse_data(tag: u32, header_extra: usize, name: &str) -> Vec<u8> {
    let units: Vec<u16> = name.encode_utf16().collect();
    let mut b = Vec::new();
    b.extend_from_slice(&tag.to_le_bytes());
    b.extend_from_slice(&0u16.to_le_bytes());
    b.extend_from_slice(&0u16.to_le_bytes());
    b.extend_from_slice(&0u16.to_le_bytes()); // substitute name offset
    b.extend_from_slice(&((units.len() * 2) as u16).to_le_bytes());
    b.extend_from_slice(&0u16.to_le_bytes());
    b.extend_from_slice(&0u16.to_le_bytes());
    b.extend(std::iter::repeat(0u8).take(header_extra));
    for u in &units {
        b.extend_from_slice(&u.to_le_bytes());
    }
    b
}

#[test]
fn substitute_name_is_read_from_reparse_data() {
    let j = reparse_data(IO_REPARSE_TAG_MOUNT_POINT, 0, r"\??\D:\real");
    let (tag, name) = substitute_name(&j).unwrap();
    assert_eq!(tag, IO_REPARSE_TAG_MOUNT_POINT);
    assert_eq!(String::from_utf16(&name).unwrap(), r"\??\D:\real");
    let s = reparse_data(IO_REPARSE_TAG_SYMLINK, 4, r"C:\t");
    assert_eq!(String::from_utf16(&substitute_name(&s).unwrap().1).unwrap(), r"C:\t");
    assert!(substitute_name(&reparse_data(7, 0, "x")).is_none());
    assert!(substitute_name(&j[..j.len() - 1]).is_none());
    assert!(substitute_name(&[0u8; 4]).is_none());
}

#[test]
fn wide_text_decodes_pairs_and_replaces_lone_surrogates() {
    let s = winsweep::restart::from_wide_array(&[0xD83D, 0xDE00, 0x41, 0xD800, 0x42, 0, 0x43]);
    assert_eq!(s, "\u{1F600}A\u{FFFD}B");
}
