//! Configuration of the cleaner and its validation.
use vstd::prelude::*;
use crate::path::{push_path, push_path_str};
use crate::text::to_owned;
use crate::types::{is_default_scan_config, ScanConfig};

verus! {

/// Main configuration.
#[derive(Debug, Clone)]
pub struct Config {
    pub scan: ScanConfig,
    pub cleanup: CleanupConfig,
    pub ui: UiConfig,
    pub logging: LoggingConfig,
    pub telemetry: TelemetryConfig,
    pub scan_include_hidden: bool,
    pub scan_include_system: bool,
    pub scan_min_size: u64,
    pub notify_cleanup_complete: bool,
    pub notify_low_disk_space: bool,
    pub low_disk_threshold: u8,
    pub notification_duration: u32,
    pub auto_cleanup_enabled: bool,
    pub auto_cleanup_days: u32,
    pub max_concurrent_ops: u8,
}

/// Cleanup settings.
#[derive(Debug, Clone)]
pub struct CleanupConfig {
    pub use_recycle_bin: bool,
    pub require_confirmation: bool,
    pub max_file_age_days: Option<u32>,
    pub min_file_size: Option<u64>,
    pub create_restore_point: bool,
    pub cleanup_confirm_delete: bool,
    pub cleanup_move_to_recycle: bool,
    pub clean_temp_files: bool,
    pub clean_recycle_bin: bool,
    pub clean_prefetch: bool,
    pub clean_browser_cache: bool,
}

/// User interface settings.
#[derive(Debug, Clone)]
pub struct UiConfig {
    pub theme: String,
    pub language: String,
    pub show_hidden_files: bool,
    pub enable_animations: bool,
    pub start_with_windows: bool,
    pub minimize_to_tray: bool,
    pub show_notifications: bool,
}

/// Logging settings.
#[derive(Debug, Clone)]
pub struct LoggingConfig {
    pub level: String,
    pub log_to_file: bool,
    pub max_log_size_mb: u32,
    pub max_log_files: u32,
    pub debug_mode: bool,
    pub verbose_logging: bool,
}

/// Telemetry settings.
#[derive(Debug, Clone)]
pub struct TelemetryConfig {
    /// Whether the user has opted in to crash reporting and telemetry.
    pub opt_in: bool,
    /// Endpoint for telemetry (empty: the default one).
    pub endpoint: String,
}

/// Why a configuration is refused.
#[derive(Debug, Clone)]
pub enum ConfigError {
    /// No scan path is given.
    NoScanPaths,
    /// A scan path does not exist.
    PathNotFound(String),
    /// `parallel_jobs` is zero.
    ParallelJobsZero,
    /// `parallel_jobs` exceeds 256.
    ParallelJobsTooMany,
    /// `max_file_size` is zero.
    MaxFileSizeZero,
}

impl ConfigError {
    /// The message that describes the error.
    pub fn message(&self) -> (m: String)
        ensures
            match self {
                ConfigError::NoScanPaths => m@ == "At least one scan path must be specified"@,
                ConfigError::PathNotFound(p) => m@ == "Scan path does not exist: "@ + p@,
                ConfigError::ParallelJobsZero => m@ == "Parallel jobs must be greater than 0"@,
                ConfigError::ParallelJobsTooMany => m@
                    == "Parallel jobs should not exceed 256"@,
                ConfigError::MaxFileSizeZero => m@ == "Max file size must be greater than 0"@,
            },
    {
        match self {
            ConfigError::NoScanPaths => to_owned("At least one scan path must be specified"),
            ConfigError::PathNotFound(p) => crate::text::concat("Scan path does not exist: ", p),
            ConfigError::ParallelJobsZero => to_owned("Parallel jobs must be greater than 0"),
            ConfigError::ParallelJobsTooMany => to_owned("Parallel jobs should not exceed 256"),
            ConfigError::MaxFileSizeZero => to_owned("Max file size must be greater than 0"),
        }
    }
}

/// The default cleanup settings.
pub open spec fn is_default_cleanup_config(c: CleanupConfig) -> bool {
    &&& c.use_recycle_bin && c.require_confirmation
    &&& c.max_file_age_days is None && c.min_file_size is None
    &&& !c.create_restore_point && c.cleanup_confirm_delete && c.cleanup_move_to_recycle
    &&& c.clean_temp_files && !c.clean_recycle_bin && c.clean_prefetch && !c.clean_browser_cache
}

/// The default interface settings.
pub open spec fn is_default_ui_config(c: UiConfig) -> bool {
    &&& c.theme@ == "system"@ && c.language@ == "en"@
    &&& !c.show_hidden_files && c.enable_animations && !c.start_with_windows
    &&& c.minimize_to_tray && c.show_notifications
}

/// The default logging settings.
pub open spec fn is_default_logging_config(c: LoggingConfig) -> bool {
    &&& c.level@ == "info"@ && c.log_to_file
    &&& c.max_log_size_mb == 10 && c.max_log_files == 5
    &&& !c.debug_mode && !c.verbose_logging
}

/// The default configuration.
pub open spec fn is_default_config(c: Config) -> bool {
    &&& is_default_scan_config(c.scan)
    &&& is_default_cleanup_config(c.cleanup)
    &&& is_default_ui_config(c.ui)
    &&& is_default_logging_config(c.logging)
    &&& !c.telemetry.opt_in && c.telemetry.endpoint@.len() == 0
    &&& !c.scan_include_hidden && !c.scan_include_system && c.scan_min_size == 1024
    &&& c.notify_cleanup_complete && c.notify_low_disk_space
    &&& c.low_disk_threshold == 10 && c.notification_duration == 5
    &&& !c.auto_cleanup_enabled && c.auto_cleanup_days == 7 && c.max_concurrent_ops == 4
}

impl Default for TelemetryConfig {
    fn default() -> (c: Self)
        ensures
            !c.opt_in && c.endpoint@.len() == 0,
    {
        TelemetryConfig { opt_in: false, endpoint: String::new() }
    }
}

impl Default for CleanupConfig {
    fn default() -> (c: Self)
        ensures
            is_default_cleanup_config(c),
    {
        CleanupConfig {
            use_recycle_bin: true,
            require_confirmation: true,
            max_file_age_days: None,
            min_file_size: None,
            create_restore_point: false,
            cleanup_confirm_delete: true,
            cleanup_move_to_recycle: true,
            clean_temp_files: true,
            clean_recycle_bin: false,
            clean_prefetch: true,
            clean_browser_cache: false,
        }
    }
}

impl Default for UiConfig {
    fn default() -> (c: Self)
        ensures
            is_default_ui_config(c),
    {
        UiConfig {
            theme: to_owned("system"),
            language: to_owned("en"),
            show_hidden_files: false,
            enable_animations: true,
            start_with_windows: false,
            minimize_to_tray: true,
            show_notifications: true,
        }
    }
}

impl Default for LoggingConfig {
    fn default() -> (c: Self)
        ensures
            is_default_logging_config(c),
    {
        LoggingConfig {
            level: to_owned("info"),
            log_to_file: true,
            max_log_size_mb: 10,
            max_log_files: 5,
            debug_mode: false,
            verbose_logging: false,
        }
    }
}

impl Default for Config {
    fn default() -> (c: Self)
        ensures
            is_default_config(c),
    {
        Config {
            scan: ScanConfig::default(),
            cleanup: CleanupConfig::default(),
            ui: UiConfig::default(),
            logging: LoggingConfig::default(),
            telemetry: TelemetryConfig::default(),
            scan_include_hidden: false,
            scan_include_system: false,
            scan_min_size: 1024,
            notify_cleanup_complete: true,
            notify_low_disk_space: true,
            low_disk_threshold: 10,
            notification_duration: 5,
            auto_cleanup_enabled: false,
            auto_cleanup_days: 7,
            max_concurrent_ops: 4,
        }
    }
}

/// There is a first `false` in `exists` at `k`.
pub open spec fn is_first_missing(exists: Seq<bool>, k: int) -> bool {
    0 <= k < exists.len() && !exists[k] && forall|j: int| 0 <= j < k ==> exists[j]
}

impl Config {
    /// Check the configuration. `path_exists[i]` tells whether
    /// `scan.paths[i]` exists on disk.
    ///
    /// The checks run in order: at least one scan path; every scan path
    /// exists (the first missing one is reported); `parallel_jobs`, when
    /// set, is between 1 and 256; `max_file_size`, when set, is not zero.
    pub fn validate(&self, path_exists: &[bool]) -> (r: Result<(), ConfigError>)
        requires
            path_exists@.len() == self.scan.paths@.len(),
        ensures
            self.scan.paths@.len() == 0 ==> r matches Err(ConfigError::NoScanPaths),
            self.scan.paths@.len() > 0 && (exists|k: int| 0 <= k < path_exists@.len() && !path_exists@[k])
                ==> (r matches Err(ConfigError::PathNotFound(p)) && exists|k: int|
                is_first_missing(path_exists@, k) && p@ == self.scan.paths@[k]@),
            self.scan.paths@.len() > 0 && (forall|k: int| 0 <= k < path_exists@.len() ==> path_exists@[k])
                ==> {
                if self.scan.parallel_jobs == Some(0usize) {
                    r matches Err(ConfigError::ParallelJobsZero)
                } else if self.scan.parallel_jobs matches Some(j) && j > 256 {
                    r matches Err(ConfigError::ParallelJobsTooMany)
                } else if self.scan.max_file_size == Some(0u64) {
                    r matches Err(ConfigError::MaxFileSizeZero)
                } else {
                    r is Ok
                }
            },
    {
        if self.scan.paths.len() == 0 {
            return Err(ConfigError::NoScanPaths);
        }
        let mut i: usize = 0;
        while i < self.scan.paths.len()
            invariant
                i <= self.scan.paths@.len(),
                path_exists@.len() == self.scan.paths@.len(),
                forall|j: int| 0 <= j < i ==> path_exists@[j],
            decreases self.scan.paths@.len() - i,
        {
            if !path_exists[i] {
                let p = crate::text::to_owned(self.scan.paths[i].as_str());
                assert(is_first_missing(path_exists@, i as int));
                return Err(ConfigError::PathNotFound(p));
            }
            i += 1;
        }
        match self.scan.parallel_jobs {
            Some(jobs) => {
                if jobs == 0 {
                    return Err(ConfigError::ParallelJobsZero);
                }
                if jobs > 256 {
                    return Err(ConfigError::ParallelJobsTooMany);
                }
            },
            None => {},
        }
        match self.scan.max_file_size {
            Some(size) => {
                if size == 0 {
                    return Err(ConfigError::MaxFileSizeZero);
                }
            },
            None => {},
        }
        Ok(())
    }
}

/// A directory reported for the user, or `.` when there is none.
pub open spec fn dir_or_here(dir: Option<Seq<char>>) -> Seq<char> {
    match dir {
        Some(d) => d,
        None => "."@,
    }
}

/// A directory reported for the user, or `.`.
fn dir_or_here_str(dir: Option<&str>) -> (r: String)
    ensures
        r@ == dir_or_here(match dir { Some(d) => Some(d@), None => None }),
{
    match dir {
        Some(d) => crate::text::to_owned(d),
        None => crate::text::to_owned("."),
    }
}

/// The configuration file: `WinSweep\config.toml` under the user's
/// configuration directory (or `.`).
pub fn config_path(config_dir: Option<&str>) -> (r: String)
    ensures
        r@ == push_path(push_path(dir_or_here(match config_dir { Some(d) => Some(d@), None => None }), "WinSweep"@), "config.toml"@),
{
    let base = dir_or_here_str(config_dir);
    let app = push_path_str(base.as_str(), "WinSweep");
    push_path_str(app.as_str(), "config.toml")
}

/// The log folder: `WinSweep\logs` under the local data directory (or `.`).
pub fn log_dir(data_local_dir: Option<&str>) -> (r: String)
    ensures
        r@ == push_path(push_path(dir_or_here(match data_local_dir { Some(d) => Some(d@), None => None }), "WinSweep"@), "logs"@),
{
    let base = dir_or_here_str(data_local_dir);
    let app = push_path_str(base.as_str(), "WinSweep");
    push_path_str(app.as_str(), "logs")
}

/// The log file: `winsweep.log` in the log folder.
pub fn log_path(log_dir: &str) -> (r: String)
    ensures
        r@ == push_path(log_dir@, "winsweep.log"@),
{
    push_path_str(log_dir, "winsweep.log")
}

/// The cache folder: `WinSweep\cache` under the local data directory (or `.`).
pub fn cache_dir(data_local_dir: Option<&str>) -> (r: String)
    ensures
        r@ == push_path(push_path(dir_or_here(match data_local_dir { Some(d) => Some(d@), None => None }), "WinSweep"@), "cache"@),
{
    let base = dir_or_here_str(data_local_dir);
    let app = push_path_str(base.as_str(), "WinSweep");
    push_path_str(app.as_str(), "cache")
}

/// The application data folder: `WinSweep` under the data directory (or `.`).
pub fn data_dir(user_data_dir: Option<&str>) -> (r: String)
    ensures
        r@ == push_path(dir_or_here(match user_data_dir { Some(d) => Some(d@), None => None }), "WinSweep"@),
{
    let base = dir_or_here_str(user_data_dir);
    push_path_str(base.as_str(), "WinSweep")
}

} // verus!
