use winsweep::ipc::{decode_length, encode_frame, MAX_MESSAGE_LEN};
use winsweep::tools::{ToolDetector, ToolProbe, ToolProbes};
use winsweep::updater::version_gt;
use winsweep::windows_edition::{FeatureProbes, WindowsEdition, WindowsEditionDetector};
use winsweep::wsl::{WslDetector, WslProbes};

fn no_tools() -> ToolProbes {
    let none = ToolProbe { path: None, output: None };
    ToolProbes {
        diskpart: none.clone(),
        diskpart_version_failed: false,
        wsl: none.clone(),
        docker: none.clone(),
        powershell: none.clone(),
        pwsh: none.clone(),
        npm: none.clone(),
        pip: none.clone(),
        cargo: none.clone(),
        nuget: none.clone(),
        git: ToolProbe { path: Some("git.exe".into()), output: Some("git version 2.44".into()) },
        vscode: none.clone(),
        schtasks: none.clone(),
        sc: none.clone(),
        wevtutil: none,
    }
}

#[test]
fn tool_catalog_and_missing_required() {
    let d = ToolDetector::new(&no_tools()).unwrap();
    let names: Vec<&str> = d.get_tools().iter().map(|t| t.name.as_str()).collect();
    assert_eq!(
        names,
        vec!["diskpart", "wsl", "docker", "powershell", "pwsh", "npm", "pip", "cargo", "nuget", "git", "vscode", "schtasks", "sc", "wevtutil"]
    );
    let required: Vec<&str> = d.get_tools().iter().filter(|t| t.required).map(|t| t.name.as_str()).collect();
    assert_eq!(required, vec!["diskpart", "powershell"]);
    for t in d.get_tools() {
        assert_eq!(t.available, t.path.is_some());
    }
    let missing: Vec<&str> = d.get_missing_required().iter().map(|t| t.name.as_str()).collect();
    assert_eq!(missing, vec!["diskpart", "powershell"]);
}

#[test]
fn compatibility_report_of_home_without_wsl2() {
    let probes = FeatureProbes { wsl: true, wsl2: false, docker_desktop: false, power_shell_7: false };
    let d = WindowsEditionDetector::new(WindowsEdition::Home, 19045, "10.0".to_string(), probes);
    let r = d.get_compatibility_report();
    assert_eq!(r.limitations[0], "No Group Policy Editor");
    assert_eq!(r.limitations.len(), 7);
    assert!(r.limitations.contains(&"WSL2 not available".to_string()));
    assert!(r.recommendations.contains(&"Install Docker Desktop for container support".to_string()));
    let probes = FeatureProbes { wsl: true, wsl2: true, docker_desktop: true, power_shell_7: true };
    let d = WindowsEditionDetector::new(WindowsEdition::Pro, 22631, "11".to_string(), probes);
    let r = d.get_compatibility_report();
    assert!(r.limitations.is_empty());
    assert!(!r.recommendations.contains(&"Install Docker Desktop for container support".to_string()));
}

fn wsl_probes(list: &str) -> WslProbes {
    WslProbes {
        wsl_exe_in_path: true,
        package_family_lists: vec![],
        install_state: None,
        lxss_default_distribution: false,
        lxss_distribution_keys: vec![],
        wsl_files: vec![],
        kernel_file_path: None,
        kernel_files: vec![],
        status_output: None,
        build_number: None,
        manage_help_succeeded: false,
        registry_distributions: vec![],
        list_output: Some(list.to_string()),
    }
}

#[test]
fn wsl2_distributions_are_the_version_two_ones() {
    let d = WslDetector::new(wsl_probes("  NAME      STATE           VERSION\n  Ubuntu    Running         2 *\n  Legacy    Stopped         1\n"));
    assert!(d.has_wsl());
    let names: Vec<&str> = d.get_wsl2_distributions().iter().map(|x| x.name.as_str()).collect();
    assert_eq!(names, vec!["Ubuntu"]);
    let mut off = wsl_probes("");
    off.wsl_exe_in_path = false;
    off.list_output = None;
    let d = WslDetector::new(off);
    assert!(!d.has_wsl() && !d.has_wsl2() && !d.has_manage_command());
    assert!(d.distributions().is_empty());
}

#[test]
fn frame_reads_back_its_payload() {
    let payload = br#"{"type":"Ping"}"#;
    let frame = encode_frame(payload);
    let header = [frame[0], frame[1], frame[2], frame[3]];
    assert_eq!(decode_length(header), Ok(payload.len() as u64));
    assert_eq!(&frame[4..], &payload[..]);
    let too_big = (MAX_MESSAGE_LEN as u32 + 1).to_le_bytes();
    assert!(decode_length(too_big).is_err());
}

#[test]
fn version_order_is_numeric_per_component() {
    assert!(!version_gt("1.0", "1.0.0"));
    assert!(!version_gt("1.0.0", "1.0"));
    assert!(version_gt("1.10.0", "1.9.0"));
    assert!(!version_gt("1.9.0", "1.10.0"));
}
