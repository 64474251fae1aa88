use winsweep::cleaners::{
    commands_clean_result, emptying_plan, global_packages_plan, pnpm_clean_plan, pnpm_commands,
    pnpm_global_folder, yarn_commands, yarn_global_folder,
    browser_clean_result, cargo_clean_result, clean_result, deletion_plan, go_clean_plan, go_clean_result, go_global_plan,
    playwright_clean_plan, playwright_clean_result, CleanAction, PathWork, SkipRule,
};
use winsweep::docker::{CleanupOptions, ContainerInfo, ContainerStatus, ImageInfo, NetworkInfo, VolumeInfo};
use winsweep::docker_cleanup::{cleanup_result, container_step, ContainerOutcome, ContainerStep, RemovalOutcome};
use winsweep::package_manager::{CommandOutcome, GoModulesManager};
use winsweep::types::Timestamp;

fn strings(v: &[&str]) -> Vec<String> {
    v.iter().map(|s| s.to_string()).collect()
}

fn paths_of(plan: &[CleanAction]) -> Vec<String> {
    plan.iter().map(|a| a.path.clone()).collect()
}

#[test]
fn cargo_plan_skips_target_and_missing_folders() {
    let paths = strings(&[r"C:\c\registry", r"C:\c\target", r"C:\c\git"]);
    let plan = deletion_plan(&paths, &[true, true, false], SkipRule::TargetDirs);
    assert_eq!(paths_of(&plan), strings(&[r"C:\c\registry"]));
    assert_eq!(plan[0].work, PathWork::Delete);
    let all = deletion_plan(&paths, &[true, true, true], SkipRule::Nothing);
    assert_eq!(all.len(), 3);
}

#[test]
fn nuget_plan_skips_project_packages() {
    let paths = strings(&[r"C:\n\v3-cache", r"C:\proj\packages"]);
    let plan = deletion_plan(&paths, &[true, true], SkipRule::ProjectPackages);
    assert_eq!(paths_of(&plan), strings(&[r"C:\n\v3-cache"]));
}

#[test]
fn deleting_cleanup_counts_folders_and_records_failures() {
    let paths = strings(&[r"C:\npm\_cacache", r"C:\npm\_logs"]);
    let plan = deletion_plan(&paths, &[true, true], SkipRule::Nothing);
    let outs = vec![Ok((0, 100)), Err("denied".to_string())];
    let r = clean_result("npm", Vec::new(), &plan, &outs, 5);
    assert_eq!(r.package_manager, "npm");
    assert_eq!(r.items_deleted, 1);
    assert_eq!(r.space_freed, 100);
    assert_eq!(r.errors, strings(&[r"Failed to delete C:\npm\_logs: denied"]));
    assert_eq!(r.duration_ms, 5);
}

#[test]
fn cargo_result_starts_with_missing_cargo_cache_notice() {
    let plan = deletion_plan(&strings(&[r"C:\c\registry"]), &[true], SkipRule::TargetDirs);
    let r = cargo_clean_result(false, &plan, &[Ok((0, 7))], 0);
    assert_eq!(r.errors.len(), 1);
    assert!(r.errors[0].starts_with("cargo-cache not found"));
    assert_eq!(r.space_freed, 7);
    let r = cargo_clean_result(true, &plan, &[Ok((0, 7))], 0);
    assert!(r.errors.is_empty());
}

#[test]
fn go_plan_expands_glob_to_go_build_entries() {
    let paths = strings(&[r"C:\tmp\go-build*", r"C:\go\pkg\mod", r"C:\missing"]);
    let entries = vec![strings(&[r"C:\tmp\go-build123", r"C:\tmp\other"]), Vec::new(), Vec::new()];
    let plan = go_clean_plan(false, &paths, &[false, true, false], &entries);
    assert_eq!(paths_of(&plan), strings(&[r"C:\tmp\go-build123", r"C:\go\pkg\mod"]));
    assert!(plan.iter().all(|a| a.work == PathWork::Empty));
    let dry = go_clean_plan(true, &paths, &[false, true, false], &entries);
    assert!(dry.iter().all(|a| a.work == PathWork::Measure));
    assert!(GoModulesManager::clean_commands(true, true).is_empty());
}

#[test]
fn go_result_lists_command_errors_then_folder_errors() {
    let paths = strings(&[r"C:\go\pkg\mod", r"C:\go\build"]);
    let plan = go_clean_plan(false, &paths, &[true, true], &[Vec::new(), Vec::new()]);
    let commands = vec![CommandOutcome::Failed("boom".to_string()), CommandOutcome::Succeeded];
    let r = go_clean_result(false, true, &commands, &plan, &[Ok((3, 30)), Err("busy".to_string())], 1);
    assert_eq!(r.package_manager, "go");
    assert_eq!(r.items_deleted, 3);
    assert_eq!(r.space_freed, 30);
    assert_eq!(r.errors, strings(&["go clean -modcache failed: boom", r"Failed to clean C:\go\build: busy"]));
    // In a dry run a folder that cannot be measured records nothing.
    let dry = go_clean_plan(true, &paths, &[true, true], &[Vec::new(), Vec::new()]);
    let r = go_clean_result(true, true, &[], &dry, &[Ok((2, 20)), Err("busy".to_string())], 1);
    assert_eq!((r.items_deleted, r.space_freed), (2, 20));
    assert!(r.errors.is_empty());
}

#[test]
fn go_global_plan_names_gopath_folders() {
    let plan = go_global_plan(false, r"C:\go", true, true);
    assert_eq!(paths_of(&plan), strings(&[r"C:\go\bin", r"C:\go\pkg"]));
    let r = clean_result("go", Vec::new(), &plan, &[Err("locked".to_string()), Ok((4, 40))], 0);
    assert_eq!(r.errors, strings(&["Failed to clean GOPATH/bin: locked"]));
    assert_eq!((r.items_deleted, r.space_freed), (4, 40));
    assert_eq!(go_global_plan(true, r"C:\go", false, true)[0].work, PathWork::Measure);
}

#[test]
fn playwright_falls_back_to_deleting_the_cache() {
    let caches = strings(&[r"C:\pw"]);
    let ok = CommandOutcome::Succeeded;
    assert!(playwright_clean_plan(&ok, &caches).is_empty());
    let r = playwright_clean_result(&ok, &[], &[], 0);
    assert_eq!(r.items_deleted, 1);
    let failed = CommandOutcome::Failed("no npx".to_string());
    let plan = playwright_clean_plan(&failed, &caches);
    assert_eq!(paths_of(&plan), caches);
    let r = playwright_clean_result(&failed, &plan, &[Ok((0, 9))], 0);
    assert_eq!(r.errors, strings(&["playwright uninstall --all failed: no npx"]));
    assert_eq!((r.items_deleted, r.space_freed), (1, 9));
    let plan = playwright_clean_plan(&CommandOutcome::CouldNotRun("x".to_string()), &caches);
    assert_eq!(plan.len(), 1);
}

fn container(name: &str, status: ContainerStatus, rw: Option<u64>, root: Option<u64>) -> ContainerInfo {
    ContainerInfo {
        id: format!("id-{name}"),
        name: name.to_string(),
        image: "img".to_string(),
        status,
        created: Timestamp { secs: 0, nanos: 0 },
        ports: Vec::new(),
        size_rw: rw,
        size_root_fs: root,
    }
}

fn image(repo: &str, size: u64, dangling: bool) -> ImageInfo {
    ImageInfo {
        id: format!("id-{repo}"),
        repository: repo.to_string(),
        tag: "latest".to_string(),
        size,
        created: Timestamp { secs: 0, nanos: 0 },
        used: false,
        dangling,
    }
}

fn network(name: &str) -> NetworkInfo {
    NetworkInfo {
        id: name.to_string(),
        name: name.to_string(),
        driver: "bridge".to_string(),
        scope: "local".to_string(),
        internal: false,
        containers: Vec::new(),
        created: Timestamp { secs: 0, nanos: 0 },
    }
}

#[test]
fn docker_cleanup_accounts_each_item() {
    let mut options = CleanupOptions::default();
    options.remove_dangling = false;
    options.remove_volumes = true;
    let containers = vec![
        container("web", ContainerStatus::Running, Some(10), Some(5)),
        container("db", ContainerStatus::Exited, Some(1), None),
    ];
    let c_out = vec![ContainerOutcome::StopFailed("timeout".to_string()), ContainerOutcome::Removed];
    let images = vec![image("<none>", 500, true), image("app", 300, false)];
    let i_out = vec![RemovalOutcome::Removed, RemovalOutcome::Removed];
    let volumes = vec![VolumeInfo {
        name: "data".to_string(),
        driver: "local".to_string(),
        mount_point: String::new(),
        created: Timestamp { secs: 0, nanos: 0 },
        size: None,
        containers: Vec::new(),
    }];
    let v_out = vec![RemovalOutcome::Failed("in use".to_string())];
    let networks = vec![network("bridge"), network("mynet")];
    let n_out = vec![RemovalOutcome::Removed, RemovalOutcome::Removed];
    let r = cleanup_result(
        &options, &containers, &c_out, &images, &i_out, &volumes, &v_out, &networks, &n_out,
        &Some(Err("no builder".to_string())), 9,
    );
    assert_eq!(r.containers_removed, 1);
    assert_eq!(r.images_removed, 1);
    assert_eq!(r.volumes_removed, 0);
    assert_eq!(r.networks_removed, 1);
    assert_eq!(r.space_freed, 1 + 300);
    assert!(!r.build_cache_cleaned);
    assert_eq!(
        r.errors,
        strings(&[
            "Failed to stop container web: timeout",
            "Failed to remove volume data: in use",
            "Failed to clean build cache: no builder",
        ])
    );
    assert_eq!(r.duration_ms, 9);
}

#[test]
fn container_is_stopped_then_removed_and_a_failed_stop_ends_it() {
    let options = CleanupOptions::default();
    let running = container("web", ContainerStatus::Running, None, None);
    assert!(matches!(container_step(&options, &running, &None, &None), ContainerStep::Stop));
    assert!(matches!(container_step(&options, &running, &Some(Ok(())), &None), ContainerStep::Remove));
    match container_step(&options, &running, &Some(Err("timeout".to_string())), &None) {
        ContainerStep::Done(ContainerOutcome::StopFailed(e)) => assert_eq!(e, "timeout"),
        _ => panic!("a failed stop ends the container's cleanup"),
    }
    assert!(matches!(
        container_step(&options, &running, &Some(Ok(())), &Some(Ok(()))),
        ContainerStep::Done(ContainerOutcome::Removed)
    ));
    let exited = container("db", ContainerStatus::Exited, None, None);
    assert!(matches!(container_step(&options, &exited, &None, &None), ContainerStep::Remove));
    match container_step(&options, &exited, &None, &Some(Err("busy".to_string()))) {
        ContainerStep::Done(ContainerOutcome::RemoveFailed(e)) => assert_eq!(e, "busy"),
        _ => panic!("a failed removal is reported"),
    }
}

#[test]
fn browser_cleanup_counts_every_folder() {
    let paths = strings(&[r"C:\b\Default\Cache", r"C:\b\Default\GPUCache"]);
    let r = browser_clean_result(
        "Google Chrome",
        &paths,
        &[Ok(40), Err("in use".to_string())],
        3,
    );
    assert_eq!(r.package_manager, "Google Chrome");
    assert_eq!(r.items_deleted, 2);
    assert_eq!(r.space_freed, 40);
    assert_eq!(r.errors, strings(&[r"C:\b\Default\GPUCache: in use"]));
}

#[test]
fn yarn_and_pnpm_cleanups() {
    let paths = strings(&[r"C:\y\cache", r"C:\y\gone"]);
    let plan = emptying_plan(false, &paths, &[true, false]);
    assert_eq!(paths_of(&plan), strings(&[r"C:\y\cache"]));
    assert_eq!(plan[0].work, PathWork::Empty);
    assert_eq!(yarn_commands(false), vec!["Yarn cache clean"]);
    assert!(yarn_commands(true).is_empty());
    let r = commands_clean_result(
        "yarn",
        &yarn_commands(false),
        &[CommandOutcome::CouldNotRun("not found".to_string())],
        &plan,
        &[Ok((5, 50))],
        0,
    );
    assert_eq!(r.errors, strings(&["Failed to run Yarn cache clean: not found"]));
    assert_eq!((r.items_deleted, r.space_freed), (5, 50));
    // pnpm measures every cache path first in a dry run, then the existing ones.
    let dry = pnpm_clean_plan(true, true, &paths, &[true, false]);
    assert_eq!(paths_of(&dry), strings(&[r"C:\y\cache", r"C:\y\gone", r"C:\y\cache"]));
    assert!(dry.iter().all(|a| a.work == PathWork::Measure));
    assert_eq!(pnpm_commands(false, true), vec!["pnpm store prune"]);
    assert!(pnpm_commands(false, false).is_empty());
    let g = global_packages_plan(false, r"C:\g", true);
    let r = clean_result("pnpm", Vec::new(), &g, &[Err("denied".to_string())], 0);
    assert_eq!(r.errors, strings(&["Failed to clean global packages: denied"]));
    assert!(global_packages_plan(false, r"C:\g", false).is_empty());
    assert_eq!(yarn_global_folder(true, r"C:\U"), r"C:\U\.yarn/berry/global");
    assert_eq!(pnpm_global_folder(" C:\\pn \n"), r"C:\pn\node_modules");
}
