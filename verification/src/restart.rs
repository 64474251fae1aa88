//! Restart Manager sessions: which applications hold files, and whether a
//! reboot is needed.
use vstd::prelude::*;
use crate::text::{chars_of, copy_range, decode_utf16_lossy, string_of, to_owned, utf16_lossy};

verus! {

/// Application type in Restart Manager.
#[derive(Debug, Clone, Copy, PartialEq, Eq, Structural)]
pub enum ApplicationType {
    Unknown,
    Application,
    Service,
    Explorer,
    Console,
    Critical,
}

/// Application status in Restart Manager.
#[derive(Debug, Clone, Copy, PartialEq, Eq, Structural)]
pub enum ApplicationStatus {
    Unknown,
    Running,
    Stopped,
    Restarted,
    Shutdown,
    Failed,
}

/// Reason for a reboot.
#[derive(Debug, Clone, Copy, PartialEq, Eq, Structural)]
pub enum RebootReason {
    /// No reboot is needed.
    NotRequired,
    ApplicationPending,
    ApplicationCritical,
    SystemCritical,
    PermissionDenied,
    SessionMismatch,
}

/// An application that uses a registered file.
#[derive(Debug, Clone)]
pub struct RestartApplication {
    pub application_name: String,
    pub application_type: ApplicationType,
    pub service_short_name: Option<String>,
    pub application_status: ApplicationStatus,
    pub process_id: Option<u32>,
    pub can_restart: bool,
    pub can_shutdown: bool,
}

/// A restart session with the applications found.
#[derive(Debug, Clone)]
pub struct RestartSession {
    pub session_key: String,
    pub applications: Vec<RestartApplication>,
    pub reboot_reason: RebootReason,
}

/// A Restart Manager session.
pub struct RestartManager {
    session_key: String,
    session_handle: u32,
}

/// The type that a raw Restart Manager application type stands for.
pub open spec fn application_type_of(v: u32) -> ApplicationType {
    if v == 1 {
        ApplicationType::Application
    } else if v == 2 {
        ApplicationType::Service
    } else if v == 3 {
        ApplicationType::Explorer
    } else if v == 4 {
        ApplicationType::Console
    } else if v == 5 {
        ApplicationType::Critical
    } else {
        ApplicationType::Unknown
    }
}

/// The status that a raw Restart Manager application status stands for.
pub open spec fn application_status_of(v: u32) -> ApplicationStatus {
    if v == 1 {
        ApplicationStatus::Running
    } else if v == 2 {
        ApplicationStatus::Stopped
    } else if v == 3 {
        ApplicationStatus::Restarted
    } else if v == 4 {
        ApplicationStatus::Shutdown
    } else if v == 5 {
        ApplicationStatus::Failed
    } else {
        ApplicationStatus::Unknown
    }
}

impl From<u32> for ApplicationType {
    fn from(value: u32) -> (r: Self) {
        match value {
            1 => ApplicationType::Application,
            2 => ApplicationType::Service,
            3 => ApplicationType::Explorer,
            4 => ApplicationType::Console,
            5 => ApplicationType::Critical,
            _ => ApplicationType::Unknown,
        }
    }
}

impl vstd::std_specs::convert::FromSpecImpl<u32> for ApplicationType {
    open spec fn obeys_from_spec() -> bool {
        true
    }

    open spec fn from_spec(v: u32) -> Self {
        application_type_of(v)
    }
}

impl From<u32> for ApplicationStatus {
    fn from(value: u32) -> (r: Self) {
        match value {
            1 => ApplicationStatus::Running,
            2 => ApplicationStatus::Stopped,
            3 => ApplicationStatus::Restarted,
            4 => ApplicationStatus::Shutdown,
            5 => ApplicationStatus::Failed,
            _ => ApplicationStatus::Unknown,
        }
    }
}

impl vstd::std_specs::convert::FromSpecImpl<u32> for ApplicationStatus {
    open spec fn obeys_from_spec() -> bool {
        true
    }

    open spec fn from_spec(v: u32) -> Self {
        application_status_of(v)
    }
}

/// An application blocks the operation: it failed, it runs and cannot be
/// shut down, or it is critical and would be restarted.
pub open spec fn blocks(app: RestartApplication) -> bool {
    ||| app.application_status == ApplicationStatus::Failed
    ||| (app.application_status == ApplicationStatus::Running && !app.can_shutdown)
    ||| (app.application_type == ApplicationType::Critical && app.can_restart)
}

/// The applications that have a name, in order.
pub open spec fn named_apps(apps: Seq<RestartApplication>) -> Seq<RestartApplication>
    decreases apps.len(),
{
    if apps.len() == 0 {
        Seq::empty()
    } else {
        (if apps[0].application_name@.len() > 0 { seq![apps[0]] } else { Seq::empty() }) + named_apps(
            apps.drop_first(),
        )
    }
}

/// The reboot reason for a list of applications.
pub open spec fn reboot_reason_for(apps: Seq<RestartApplication>) -> RebootReason {
    if exists|i: int| 0 <= i < apps.len() && blocks(#[trigger] apps[i]) {
        RebootReason::ApplicationCritical
    } else {
        RebootReason::NotRequired
    }
}

/// `s` without its trailing `c` characters (`str::trim_end_matches`).
pub open spec fn trim_trailing(s: Seq<char>, c: char) -> Seq<char>
    decreases s.len(),
{
    if s.len() > 0 && s.last() == c {
        trim_trailing(s.drop_last(), c)
    } else {
        s
    }
}

/// The code units before the first zero.
pub open spec fn before_nul(units: Seq<u16>) -> Seq<u16> {
    if exists|i: int| 0 <= i < units.len() && units[i] == 0 {
        units.subrange(0, choose|i: int| 0 <= i < units.len() && units[i] == 0 && forall|j: int| 0 <= j < i ==> units[j] != 0)
    } else {
        units
    }
}

/// A string without its trailing `c` characters.
pub fn trim_end_char(s: &str, c: char) -> (r: String)
    ensures
        r@ == trim_trailing(s@, c),
{
    let v = chars_of(s);
    let mut b: usize = v.len();
    assert(v@.subrange(0, v@.len() as int) =~= v@);
    while b > 0 && v[b - 1] == c
        invariant
            b <= v@.len(),
            trim_trailing(v@, c) == trim_trailing(v@.subrange(0, b as int), c),
        decreases b,
    {
        assert(v@.subrange(0, b as int).drop_last() =~= v@.subrange(0, b - 1));
        b -= 1;
    }
    string_of(&copy_range(&v, 0, b))
}

/// Decode a zero-terminated UTF-16 buffer.
pub fn from_wide_array(wide_array: &[u16]) -> (s: String)
    ensures
        s@ == utf16_lossy(before_nul(wide_array@)),
{
    let mut end: usize = 0;
    while end < wide_array.len() && wide_array[end] != 0
        invariant
            end <= wide_array@.len(),
            forall|j: int| 0 <= j < end ==> wide_array@[j] != 0,
        decreases wide_array@.len() - end,
    {
        end += 1;
    }
    let mut units: Vec<u16> = Vec::new();
    let mut i: usize = 0;
    while i < end
        invariant
            i <= end <= wide_array@.len(),
            units@ == wide_array@.subrange(0, i as int),
        decreases end - i,
    {
        units.push(wide_array[i]);
        i += 1;
        assert(units@ =~= wide_array@.subrange(0, i as int));
    }
    proof {
        if end < wide_array@.len() {
            let k = choose|k: int| 0 <= k < wide_array@.len() && wide_array@[k] == 0 && forall|j: int| 0 <= j < k ==> wide_array@[j] != 0;
            assert(wide_array@[end as int] == 0);
            if k < end {
                assert(wide_array@[k] != 0);
            }
            if k > end {
                assert(wide_array@[end as int] != 0);
            }
            assert(k == end);
        } else {
            assert(units@ =~= wide_array@);
        }
    }
    decode_utf16_lossy(units.as_slice())
}

impl RestartManager {
    /// A manager for the session that `RmStartSession` opened, from its key
    /// buffer and handle; the key is the decoded buffer without trailing
    /// NUL characters.
    pub fn new(session_key: &[u16], session_handle: u32) -> (m: Self)
        ensures
            m.key() == trim_trailing(utf16_lossy(session_key@), '\0'),
            m.handle() == session_handle,
    {
        let decoded = decode_utf16_lossy(session_key);
        let key = trim_end_char(decoded.as_str(), '\0');
        RestartManager { session_key: key, session_handle }
    }

    /// The session key.
    pub closed spec fn key(&self) -> Seq<char> {
        self.session_key@
    }

    /// The session handle.
    pub closed spec fn handle(&self) -> u32 {
        self.session_handle
    }

    /// The session handle.
    pub fn session_handle(&self) -> (h: u32)
        ensures
            h == self.handle(),
    {
        self.session_handle
    }

    /// The session with the applications that use the registered files, as
    /// the Restart Manager listed them: entries without an application name
    /// are left out.
    pub fn get_session(&self, applications: Vec<RestartApplication>) -> (s: RestartSession)
        ensures
            s.session_key@ == self.key(),
            s.applications@ == named_apps(applications@),
            s.reboot_reason == reboot_reason_for(named_apps(applications@)),
    {
        let ghost all = applications@;
        let mut rest = applications;
        let mut kept: Vec<RestartApplication> = Vec::new();
        while rest.len() > 0
            invariant
                kept@ + named_apps(rest@) == named_apps(all),
            decreases rest@.len(),
        {
            let ghost before = rest@;
            let app = rest.remove(0);
            assert(rest@ =~= before.drop_first());
            let ghost kept0 = kept@;
            if app.application_name.as_str().unicode_len() > 0 {
                kept.push(app);
                assert(kept@ + named_apps(rest@) =~= kept0 + named_apps(before));
            } else {
                assert(kept@ + named_apps(rest@) =~= kept0 + named_apps(before));
            }
        }
        assert(kept@ =~= kept@ + named_apps(rest@));
        let reboot_reason = self.determine_reboot_reason(&kept);
        RestartSession {
            session_key: to_owned(self.session_key.as_str()),
            applications: kept,
            reboot_reason,
        }
    }

    /// Whether a reboot is needed because of the applications: any failed
    /// one, any running one that cannot be shut down, or any critical one
    /// that would be restarted.
    pub fn determine_reboot_reason(&self, applications: &[RestartApplication]) -> (r: RebootReason)
        ensures
            r == reboot_reason_for(applications@),
    {
        let mut i: usize = 0;
        while i < applications.len()
            invariant
                i <= applications@.len(),
                forall|j: int| 0 <= j < i ==> !blocks(#[trigger] applications@[j]),
            decreases applications@.len() - i,
        {
            let app = &applications[i];
            match app.application_status {
                ApplicationStatus::Failed => {
                    assert(blocks(applications@[i as int]));
                    return RebootReason::ApplicationCritical;
                },
                ApplicationStatus::Running if !app.can_shutdown => {
                    assert(blocks(applications@[i as int]));
                    return RebootReason::ApplicationCritical;
                },
                _ => {},
            }
            if app.application_type == ApplicationType::Critical && app.can_restart {
                assert(blocks(applications@[i as int]));
                return RebootReason::ApplicationCritical;
            }
            i += 1;
        }
        RebootReason::NotRequired
    }
}

/// Where an operation on files that applications may hold stands.
#[derive(Debug, Clone, Copy, PartialEq, Eq, Structural)]
pub enum SafePhase {
    /// The session with the applications is being taken.
    Session,
    /// The applications are being shut down.
    ShuttingDown,
    /// The operation is running; `restart` says whether the applications
    /// were shut down and must be restarted after it.
    Running { restart: bool },
    /// The applications are being restarted.
    Restarting,
    /// Nothing more is done.
    Finished,
}

/// What the caller reports back.
#[derive(Debug)]
pub enum SafeEvent {
    /// The session was taken; this many applications use the files.
    SessionTaken(usize),
    /// Shutting the applications down ended so.
    ShutDown(Result<(), String>),
    /// The operation ran (its result is the caller's to return).
    OperationRan,
    /// Restarting the applications ended so (a failure is only a warning).
    Restarted(Result<(), String>),
}

/// What to do next.
#[derive(Debug, Clone)]
pub enum SafeAction {
    /// Shut down the applications that use the files, then wait a second.
    ShutDown,
    /// Run the operation.
    RunOperation,
    /// Restart the applications.
    Restart,
    /// Return the operation's result.
    ReturnResult,
    /// Return this error without running the operation.
    Fail(String),
}

/// One step of running an operation on files that applications may hold:
/// with no application using them the operation runs at once; otherwise the
/// applications are shut down (a failure ends it with that error, the
/// operation not run), the operation runs, the applications are restarted,
/// and the operation's result is returned whatever the restart gave. An
/// event that does not fit the phase leaves it unchanged and returns the
/// operation's result as it stands.
pub fn safe_step(phase: &mut SafePhase, event: SafeEvent) -> (a: SafeAction)
    ensures
        match (*old(phase), event) {
            (SafePhase::Session, SafeEvent::SessionTaken(n)) => if n == 0 {
                *final(phase) == SafePhase::Running { restart: false } && a matches SafeAction::RunOperation
            } else {
                *final(phase) == SafePhase::ShuttingDown && a matches SafeAction::ShutDown
            },
            (SafePhase::ShuttingDown, SafeEvent::ShutDown(Ok(_))) => *final(phase) == SafePhase::Running {
                restart: true,
            } && a matches SafeAction::RunOperation,
            (SafePhase::ShuttingDown, SafeEvent::ShutDown(Err(e))) => *final(phase) == SafePhase::Finished
                && a == SafeAction::Fail(e),
            (SafePhase::Running { restart }, SafeEvent::OperationRan) => if restart {
                *final(phase) == SafePhase::Restarting && a matches SafeAction::Restart
            } else {
                *final(phase) == SafePhase::Finished && a matches SafeAction::ReturnResult
            },
            (SafePhase::Restarting, SafeEvent::Restarted(_)) => *final(phase) == SafePhase::Finished
                && a matches SafeAction::ReturnResult,
            _ => *final(phase) == *old(phase) && a matches SafeAction::ReturnResult,
        },
{
    match (*phase, event) {
        (SafePhase::Session, SafeEvent::SessionTaken(n)) => {
            if n == 0 {
                *phase = SafePhase::Running { restart: false };
                SafeAction::RunOperation
            } else {
                *phase = SafePhase::ShuttingDown;
                SafeAction::ShutDown
            }
        },
        (SafePhase::ShuttingDown, SafeEvent::ShutDown(Ok(()))) => {
            *phase = SafePhase::Running { restart: true };
            SafeAction::RunOperation
        },
        (SafePhase::ShuttingDown, SafeEvent::ShutDown(Err(e))) => {
            *phase = SafePhase::Finished;
            SafeAction::Fail(e)
        },
        (SafePhase::Running { restart }, SafeEvent::OperationRan) => {
            if restart {
                *phase = SafePhase::Restarting;
                SafeAction::Restart
            } else {
                *phase = SafePhase::Finished;
                SafeAction::ReturnResult
            }
        },
        (SafePhase::Restarting, SafeEvent::Restarted(_)) => {
            *phase = SafePhase::Finished;
            SafeAction::ReturnResult
        },
        _ => SafeAction::ReturnResult,
    }
}

} // verus!
