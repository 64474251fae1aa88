//! Types shared across the components of the cleaner.
use vstd::prelude::*;
use crate::text::to_owned;

verus! {

/// A point in time as seconds and nanoseconds since the Unix epoch.
#[derive(Debug, Clone, Copy, PartialEq, Eq, Structural)]
pub struct Timestamp {
    pub secs: i64,
    pub nanos: u32,
}

/// File or directory type.
#[derive(Debug, Clone, Copy, PartialEq, Eq, Structural)]
pub enum FileType {
    File,
    Directory,
    Symlink,
    Junction,
}

/// Project type detected from file signatures.
#[derive(Debug, Clone, Copy, PartialEq, Eq, Structural)]
pub enum ProjectType {
    NodeJs,
    TypeScript,
    React,
    Vue,
    Angular,
    Svelte,
    Rust,
    Python,
    Django,
    Flask,
    FastAPI,
    Java,
    Maven,
    Gradle,
    Go,
    Cpp,
    CMake,
    DotNet,
    Ruby,
    Rails,
    Php,
    Laravel,
    Android,
    Flutter,
    ReactNative,
    Docker,
    Kubernetes,
    Terraform,
    Ansible,
    Packer,
    Vagrant,
    Jupyter,
    R,
    Unity,
    Unreal,
    Git,
    Hg,
    Svn,
}

/// Configuration for scanning behaviour.
#[derive(Debug, Clone)]
pub struct ScanConfig {
    pub paths: Vec<String>,
    pub include_hidden: bool,
    pub follow_symlinks: bool,
    pub max_file_size: Option<u64>,
    pub exclude_patterns: Vec<String>,
    pub include_patterns: Vec<String>,
    pub parallel_jobs: Option<usize>,
    /// Only report artifact directories whose lock file is at least this
    /// many days old.
    pub min_age_days: Option<u32>,
}

/// The scan configuration used when none is given: the current directory,
/// no hidden files, no symlinks, files up to 1 GiB, temporary and log files
/// excluded.
pub open spec fn is_default_scan_config(c: ScanConfig) -> bool {
    &&& c.paths@.len() == 1 && c.paths@[0]@ == "."@
    &&& !c.include_hidden
    &&& !c.follow_symlinks
    &&& c.max_file_size == Some(1073741824u64)
    &&& c.exclude_patterns@.len() == 3
    &&& c.exclude_patterns@[0]@ == "*.tmp"@
    &&& c.exclude_patterns@[1]@ == "*.temp"@
    &&& c.exclude_patterns@[2]@ == "*.log"@
    &&& c.include_patterns@.len() == 0
    &&& c.parallel_jobs is None
    &&& c.min_age_days is None
}

impl Default for ScanConfig {
    fn default() -> (c: Self)
        ensures
            is_default_scan_config(c),
    {
        let mut paths: Vec<String> = Vec::new();
        paths.push(to_owned("."));
        let mut exclude_patterns: Vec<String> = Vec::new();
        exclude_patterns.push(to_owned("*.tmp"));
        exclude_patterns.push(to_owned("*.temp"));
        exclude_patterns.push(to_owned("*.log"));
        ScanConfig {
            paths,
            include_hidden: false,
            follow_symlinks: false,
            max_file_size: Some(1024 * 1024 * 1024),
            exclude_patterns,
            include_patterns: Vec::new(),
            parallel_jobs: None,
            min_age_days: None,
        }
    }
}

/// One item found by a scan.
#[derive(Debug, Clone)]
pub struct ScanResult {
    /// The scan item's identifier (a UUID as a number).
    pub id: u128,
    pub path: String,
    pub size_bytes: u64,
    pub file_type: FileType,
    pub project_type: Option<ProjectType>,
    pub last_modified: Timestamp,
    pub is_safe_to_delete: bool,
    pub deletion_reason: Option<String>,
}

/// What a cleanup did.
#[derive(Debug, Clone)]
pub struct CleanupResult {
    /// The scan's identifier (a UUID as a number).
    pub scan_id: u128,
    pub items_deleted: Vec<String>,
    pub items_failed: Vec<(String, String)>,
    pub space_freed_bytes: u64,
    pub duration_ms: u64,
}

} // verus!
