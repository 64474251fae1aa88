//! The audit log: what each entry records, when the log is rotated and
//! which entries a read returns. Writing the JSON lines is the caller's
//! part.
use vstd::prelude::*;
use crate::path::{join_child, join_path};
use crate::text::to_owned;
use crate::types::{CleanupResult, ScanConfig, Timestamp};
use crate::wsl::opt_text;

verus! {

/// Types of operations that are audited.
#[derive(Debug, Clone, Copy, PartialEq, Eq, Structural)]
pub enum AuditOperation {
    ScanStart,
    ScanComplete,
    CleanupStart,
    CleanupComplete,
    FileDeleted,
    DirectoryDeleted,
    ConfigChanged,
    ElevatedStart,
    ProcessEnd,
    IpcMessageSent,
    IpcMessageReceived,
    SecurityViolation,
}

/// The details of an audited operation. Identifiers are UUIDs as numbers.
#[derive(Debug, Clone)]
pub enum AuditDetails {
    Scan { scan_id: u128, paths: Vec<String>, include_hidden: bool, follow_symlinks: bool },
    ScanResult { scan_id: u128, items_found: u64, total_size_bytes: u64, duration_ms: u64 },
    Cleanup { cleanup_id: u128, items_to_delete: Vec<String>, use_recycle_bin: bool },
    CleanupResult {
        cleanup_id: u128,
        items_deleted: Vec<String>,
        items_failed: Vec<(String, String)>,
        space_freed_bytes: u64,
        duration_ms: u64,
    },
    FileDeletion { file_path: String, file_size_bytes: u64, moved_to_recycle_bin: bool },
    /// Old and new values as JSON text.
    ConfigChange { key: String, old_value: Option<String>, new_value: Option<String> },
    Process { command_line: String, working_directory: String, elevated: bool },
    IpcMessage { message_type: String, message_id: Option<u128>, size_bytes: usize },
    SecurityViolation { violation_type: String, details: String, blocked: bool },
}

/// Extra data recorded with an entry.
#[derive(Debug, Clone, Copy, PartialEq, Eq, Structural)]
pub enum AuditMetadata {
    /// Nothing (an empty JSON object).
    Empty,
    /// The limits a scan ran with.
    ScanLimits { parallel_jobs: Option<usize>, max_file_size: Option<u64> },
}

/// One audit log entry.
#[derive(Debug, Clone)]
pub struct AuditLogEntry {
    pub id: u128,
    pub timestamp: Timestamp,
    pub operation: AuditOperation,
    pub user: Option<String>,
    pub process_id: u32,
    pub details: AuditDetails,
    pub success: bool,
    pub error_message: Option<String>,
    pub metadata: AuditMetadata,
}

/// The audit logger: where the log is written, and who writes it.
pub struct AuditLogger {
    log_file: String,
    process_id: u32,
    user: Option<String>,
}

/// The message recorded for a blocked operation.
pub open spec fn blocked_message() -> Seq<char> {
    "Operation blocked for security reasons"@
}

/// An entry records the logger's user and process and the given identity.
pub open spec fn stamped(e: AuditLogEntry, l: AuditLogger, id: u128, now: Timestamp) -> bool {
    &&& e.id == id
    &&& e.timestamp == now
    &&& opt_text(e.user) == l.who()
    &&& e.process_id == l.pid()
}

/// The texts of a list of paths.
pub open spec fn texts(v: Seq<String>) -> Seq<Seq<char>> {
    v.map_values(|s: String| s@)
}

/// A copy of a list of strings.
fn copy_strings(v: &Vec<String>) -> (r: Vec<String>)
    ensures
        texts(r@) == texts(v@),
{
    let mut r: Vec<String> = Vec::new();
    let mut i: usize = 0;
    while i < v.len()
        invariant
            i <= v@.len(),
            texts(r@) == texts(v@.subrange(0, i as int)),
        decreases v@.len() - i,
    {
        let c = v[i].clone();
        assert(c@ == v@[i as int]@);
        let ghost before = r@;
        r.push(c);
        assert(texts(before.push(c)) =~= texts(before).push(c@));
        assert(v@.subrange(0, i + 1) =~= v@.subrange(0, i as int).push(v@[i as int]));
        assert(texts(v@.subrange(0, i as int).push(v@[i as int])) =~= texts(v@.subrange(0, i as int)).push(v@[i as int]@));
        i += 1;
    }
    assert(v@.subrange(0, v@.len() as int) =~= v@);
    r
}

/// A copy of a list of failures.
fn copy_failures(v: &Vec<(String, String)>) -> (r: Vec<(String, String)>)
    ensures
        r@.map_values(|f: (String, String)| (f.0@, f.1@)) == v@.map_values(
            |f: (String, String)| (f.0@, f.1@),
        ),
{
    let mut r: Vec<(String, String)> = Vec::new();
    let mut i: usize = 0;
    while i < v.len()
        invariant
            i <= v@.len(),
            r@.map_values(|f: (String, String)| (f.0@, f.1@)) == v@.subrange(0, i as int).map_values(
                |f: (String, String)| (f.0@, f.1@),
            ),
        decreases v@.len() - i,
    {
        let (a, b) = &v[i];
        let c = (a.clone(), b.clone());
        let ghost before = r@;
        r.push(c);
        let ghost w = v@.subrange(0, i as int);
        assert(before.push(c).map_values(|f: (String, String)| (f.0@, f.1@)) =~= before.map_values(
            |f: (String, String)| (f.0@, f.1@),
        ).push((c.0@, c.1@)));
        assert(v@.subrange(0, i + 1) =~= w.push(v@[i as int]));
        assert(w.push(v@[i as int]).map_values(|f: (String, String)| (f.0@, f.1@)) =~= w.map_values(
            |f: (String, String)| (f.0@, f.1@),
        ).push((v@[i as int].0@, v@[i as int].1@)));
        i += 1;
    }
    assert(v@.subrange(0, v@.len() as int) =~= v@);
    r
}

impl AuditLogger {
    /// A logger writing `audit.log` in the data directory, for the given
    /// user (from `USERNAME`) and process.
    pub fn new(data_dir: &str, user: Option<String>, process_id: u32) -> (l: Self)
        ensures
            l.file() == join_child(data_dir@, "audit.log"@),
            l.who() == opt_text(user),
            l.pid() == process_id,
    {
        AuditLogger { log_file: join_path(data_dir, "audit.log"), process_id, user }
    }

    /// The log file.
    pub closed spec fn file(&self) -> Seq<char> {
        self.log_file@
    }

    /// The user.
    pub closed spec fn who(&self) -> Option<Seq<char>> {
        opt_text(self.user)
    }

    /// The process.
    pub closed spec fn pid(&self) -> u32 {
        self.process_id
    }

    /// The log file.
    pub fn log_file(&self) -> (p: &str)
        ensures
            p@ == self.file(),
    {
        self.log_file.as_str()
    }

    /// A copy of the user.
    fn user_copy(&self) -> (u: Option<String>)
        ensures
            opt_text(u) == self.who(),
    {
        match &self.user {
            Some(s) => Some(s.clone()),
            None => None,
        }
    }

    /// The entry for the start of a scan.
    pub fn scan_start_entry(
        &self,
        id: u128,
        now: Timestamp,
        scan_id: u128,
        paths: Vec<String>,
        config: &ScanConfig,
    ) -> (e: AuditLogEntry)
        ensures
            stamped(e, *self, id, now),
            e.operation == AuditOperation::ScanStart,
            e.success,
            e.error_message is None,
            (e.details matches AuditDetails::Scan { scan_id: s, paths: p, include_hidden: h, follow_symlinks: f }
                && s == scan_id && p == paths && h == config.include_hidden && f == config.follow_symlinks),
            e.metadata == (AuditMetadata::ScanLimits {
                parallel_jobs: config.parallel_jobs,
                max_file_size: config.max_file_size,
            }),
    {
        AuditLogEntry {
            id,
            timestamp: now,
            operation: AuditOperation::ScanStart,
            user: self.user_copy(),
            process_id: self.process_id,
            details: AuditDetails::Scan {
                scan_id,
                paths,
                include_hidden: config.include_hidden,
                follow_symlinks: config.follow_symlinks,
            },
            success: true,
            error_message: None,
            metadata: AuditMetadata::ScanLimits {
                parallel_jobs: config.parallel_jobs,
                max_file_size: config.max_file_size,
            },
        }
    }

    /// The entry for the end of a scan.
    pub fn scan_complete_entry(
        &self,
        id: u128,
        now: Timestamp,
        scan_id: u128,
        items_found: u64,
        total_size: u64,
        duration_ms: u64,
    ) -> (e: AuditLogEntry)
        ensures
            stamped(e, *self, id, now),
            e.operation == AuditOperation::ScanComplete,
            e.success,
            e.error_message is None,
            (e.details matches AuditDetails::ScanResult { scan_id: s, items_found: n, total_size_bytes: t, duration_ms: d }
                && s == scan_id && n == items_found && t == total_size && d == duration_ms),
            e.metadata == AuditMetadata::Empty,
    {
        AuditLogEntry {
            id,
            timestamp: now,
            operation: AuditOperation::ScanComplete,
            user: self.user_copy(),
            process_id: self.process_id,
            details: AuditDetails::ScanResult {
                scan_id,
                items_found,
                total_size_bytes: total_size,
                duration_ms,
            },
            success: true,
            error_message: None,
            metadata: AuditMetadata::Empty,
        }
    }

    /// The entry for the start of a cleanup.
    pub fn cleanup_start_entry(
        &self,
        id: u128,
        now: Timestamp,
        cleanup_id: u128,
        items: Vec<String>,
        use_recycle_bin: bool,
    ) -> (e: AuditLogEntry)
        ensures
            stamped(e, *self, id, now),
            e.operation == AuditOperation::CleanupStart,
            e.success,
            e.error_message is None,
            (e.details matches AuditDetails::Cleanup { cleanup_id: c, items_to_delete: p, use_recycle_bin: u }
                && c == cleanup_id && p == items && u == use_recycle_bin),
            e.metadata == AuditMetadata::Empty,
    {
        AuditLogEntry {
            id,
            timestamp: now,
            operation: AuditOperation::CleanupStart,
            user: self.user_copy(),
            process_id: self.process_id,
            details: AuditDetails::Cleanup { cleanup_id, items_to_delete: items, use_recycle_bin },
            success: true,
            error_message: None,
            metadata: AuditMetadata::Empty,
        }
    }

    /// The entry for the end of a cleanup.
    pub fn cleanup_complete_entry(
        &self,
        id: u128,
        now: Timestamp,
        cleanup_id: u128,
        result: &CleanupResult,
    ) -> (e: AuditLogEntry)
        ensures
            stamped(e, *self, id, now),
            e.operation == AuditOperation::CleanupComplete,
            e.success,
            e.error_message is None,
            (e.details matches AuditDetails::CleanupResult {
                cleanup_id: c,
                items_deleted: d,
                items_failed: f,
                space_freed_bytes: s,
                duration_ms: ms,
            } && c == cleanup_id && texts(d@) == texts(result.items_deleted@) && f@.map_values(
                |x: (String, String)| (x.0@, x.1@),
            ) == result.items_failed@.map_values(|x: (String, String)| (x.0@, x.1@))
                && s == result.space_freed_bytes && ms == result.duration_ms),
            e.metadata == AuditMetadata::Empty,
    {
        AuditLogEntry {
            id,
            timestamp: now,
            operation: AuditOperation::CleanupComplete,
            user: self.user_copy(),
            process_id: self.process_id,
            details: AuditDetails::CleanupResult {
                cleanup_id,
                items_deleted: copy_strings(&result.items_deleted),
                items_failed: copy_failures(&result.items_failed),
                space_freed_bytes: result.space_freed_bytes,
                duration_ms: result.duration_ms,
            },
            success: true,
            error_message: None,
            metadata: AuditMetadata::Empty,
        }
    }

    /// The entry for a deleted file.
    pub fn file_deletion_entry(
        &self,
        id: u128,
        now: Timestamp,
        file_path: String,
        file_size: u64,
        moved_to_recycle_bin: bool,
    ) -> (e: AuditLogEntry)
        ensures
            stamped(e, *self, id, now),
            e.operation == AuditOperation::FileDeleted,
            e.success,
            e.error_message is None,
            (e.details matches AuditDetails::FileDeletion { file_path: p, file_size_bytes: s, moved_to_recycle_bin: m }
                && p == file_path && s == file_size && m == moved_to_recycle_bin),
            e.metadata == AuditMetadata::Empty,
    {
        AuditLogEntry {
            id,
            timestamp: now,
            operation: AuditOperation::FileDeleted,
            user: self.user_copy(),
            process_id: self.process_id,
            details: AuditDetails::FileDeletion {
                file_path,
                file_size_bytes: file_size,
                moved_to_recycle_bin,
            },
            success: true,
            error_message: None,
            metadata: AuditMetadata::Empty,
        }
    }

    /// The entry for a security violation: it failed exactly when it was
    /// blocked, and then says why.
    pub fn security_violation_entry(
        &self,
        id: u128,
        now: Timestamp,
        violation_type: String,
        details: String,
        blocked: bool,
    ) -> (e: AuditLogEntry)
        ensures
            stamped(e, *self, id, now),
            e.operation == AuditOperation::SecurityViolation,
            e.success == !blocked,
            opt_text(e.error_message) == (if blocked { Some(blocked_message()) } else { None }),
            (e.details matches AuditDetails::SecurityViolation { violation_type: v, details: d, blocked: b }
                && v == violation_type && d == details && b == blocked),
            e.metadata == AuditMetadata::Empty,
    {
        proof {
            reveal_strlit("Operation blocked for security reasons");
        }
        AuditLogEntry {
            id,
            timestamp: now,
            operation: AuditOperation::SecurityViolation,
            user: self.user_copy(),
            process_id: self.process_id,
            details: AuditDetails::SecurityViolation { violation_type, details, blocked },
            success: !blocked,
            error_message: if blocked {
                Some(to_owned("Operation blocked for security reasons"))
            } else {
                None
            },
            metadata: AuditMetadata::Empty,
        }
    }
}

/// Whether a log of `len` bytes is rotated under a limit of `max_size_mb`
/// whole mebibytes: when its size in whole mebibytes exceeds the limit.
pub fn needs_rotation(len: u64, max_size_mb: u32) -> (b: bool)
    ensures
        b == (len / 1048576 > max_size_mb),
{
    len / (1024 * 1024) > max_size_mb as u64
}

/// The entries a read returns, newest first: the parsed lines taken from
/// the end, unparsable ones skipped, stopping once `limit` entries are
/// taken (at least one is always taken when there is one).
pub open spec fn recent<T>(parsed: Seq<Option<T>>, limit: Option<usize>, acc: Seq<T>) -> Seq<T>
    decreases parsed.len(),
{
    if parsed.len() == 0 {
        acc
    } else {
        match parsed.last() {
            Some(e) => {
                let a = acc.push(e);
                if limit matches Some(l) && a.len() >= l {
                    a
                } else {
                    recent(parsed.drop_last(), limit, a)
                }
            },
            None => recent(parsed.drop_last(), limit, acc),
        }
    }
}

/// The entries a read returns from the parsed lines of the log, in file
/// order (`None` for a line that is not an entry).
pub fn take_recent<T>(parsed: Vec<Option<T>>, limit: Option<usize>) -> (r: Vec<T>)
    ensures
        r@ == recent(parsed@, limit, Seq::empty()),
{
    let mut rest = parsed;
    let mut out: Vec<T> = Vec::new();
    while rest.len() > 0
        invariant
            recent(parsed@, limit, Seq::empty()) == recent(rest@, limit, out@),
        decreases rest@.len(),
    {
        let ghost before = rest@;
        let item = rest.pop();
        assert(before.drop_last() =~= rest@);
        match item {
            Some(Some(e)) => {
                out.push(e);
                match limit {
                    Some(l) => {
                        if out.len() >= l {
                            return out;
                        }
                    },
                    None => {},
                }
            },
            Some(None) => {},
            None => {},
        }
    }
    out
}

/// A read never returns more entries than there are parsed lines, and with
/// a positive limit never more than the limit.
pub proof fn law_recent_bounded<T>(parsed: Seq<Option<T>>, limit: Option<usize>, acc: Seq<T>)
    requires
        limit matches Some(l) ==> acc.len() < l,
    ensures
        recent(parsed, limit, acc).len() <= acc.len() + parsed.len(),
        limit matches Some(l) ==> recent(parsed, limit, acc).len() <= l,
    decreases parsed.len(),
{
    if parsed.len() > 0 {
        match parsed.last() {
            Some(e) => {
                let a = acc.push(e);
                if !(limit matches Some(l) && a.len() >= l) {
                    law_recent_bounded(parsed.drop_last(), limit, a);
                }
            },
            None => {
                law_recent_bounded(parsed.drop_last(), limit, acc);
            },
        }
    }
}

} // verus!
