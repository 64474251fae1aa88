//! The command line: which view it starts in, and the scan that the NDJSON
//! output runs.
use vstd::prelude::*;
use crate::text::{str_eq, to_owned};
use crate::types::ScanConfig;

verus! {

/// The view the interface starts in.
#[derive(Debug, Clone, Copy, PartialEq, Eq, Structural)]
pub enum Mode {
    Main,
    Scan,
    Wsl,
    Docker,
    WindowsUpdate,
    Services,
    Config,
}

/// The view a `--mode` value names.
pub open spec fn mode_of(name: Seq<char>) -> Mode {
    if name == "scan"@ {
        Mode::Scan
    } else if name == "wsl"@ {
        Mode::Wsl
    } else if name == "docker"@ {
        Mode::Docker
    } else if name == "update"@ {
        Mode::WindowsUpdate
    } else if name == "services"@ {
        Mode::Services
    } else if name == "config"@ {
        Mode::Config
    } else {
        Mode::Main
    }
}

/// The view a `--mode` value names; any other value starts the main view.
pub fn mode_from_name(name: &str) -> (m: Mode)
    ensures
        m == mode_of(name@),
{
    if str_eq(name, "scan") {
        Mode::Scan
    } else if str_eq(name, "wsl") {
        Mode::Wsl
    } else if str_eq(name, "docker") {
        Mode::Docker
    } else if str_eq(name, "update") {
        Mode::WindowsUpdate
    } else if str_eq(name, "services") {
        Mode::Services
    } else if str_eq(name, "config") {
        Mode::Config
    } else {
        Mode::Main
    }
}

/// The scan that the NDJSON output runs: the given paths (the current
/// directory when none is given), nothing hidden, no symbolic links, no
/// size limit, no patterns, the default parallelism, and the `--older`
/// age filter.
pub fn ndjson_scan_config(paths: Vec<String>, current_dir: &str, older: Option<u32>) -> (c: ScanConfig)
    ensures
        paths@.len() == 0 ==> c.paths@.len() == 1 && c.paths@[0]@ == current_dir@,
        paths@.len() > 0 ==> c.paths == paths,
        !c.include_hidden,
        !c.follow_symlinks,
        c.max_file_size is None,
        c.exclude_patterns@.len() == 0,
        c.include_patterns@.len() == 0,
        c.parallel_jobs is None,
        c.min_age_days == older,
{
    let paths = if paths.len() == 0 {
        let mut v: Vec<String> = Vec::new();
        v.push(to_owned(current_dir));
        v
    } else {
        paths
    };
    ScanConfig {
        paths,
        include_hidden: false,
        follow_symlinks: false,
        max_file_size: None,
        exclude_patterns: Vec::new(),
        include_patterns: Vec::new(),
        parallel_jobs: None,
        min_age_days: older,
    }
}

} // verus!
