//! Windows service states, start types and the rules for touching services.
use vstd::prelude::*;
use crate::home_edition::HomeEditionCompat;
use crate::text::{str_eq, to_owned};

verus! {

/// Service status information.
#[derive(Debug, Clone)]
pub struct ServiceStatus {
    pub service_type: u32,
    pub current_state: ServiceState,
    pub controls_accepted: u32,
    pub win32_exit_code: u32,
    pub service_specific_exit_code: u32,
    pub check_point: u32,
    pub wait_hint: u32,
    pub process_id: Option<u32>,
    pub service_flags: u32,
}

/// Service state.
#[derive(Debug, Clone, Copy, PartialEq, Eq, Structural)]
pub enum ServiceState {
    Stopped,
    StartPending,
    StopPending,
    Running,
    ContinuePending,
    PausePending,
    Paused,
    Unknown,
}

/// Service information.
#[derive(Debug, Clone)]
pub struct ServiceInfo {
    pub name: String,
    pub display_name: String,
    pub status: ServiceStatus,
    pub start_type: ServiceStartType,
    pub can_stop: bool,
    pub can_start: bool,
    pub can_delete: bool,
}

/// Service start type.
#[derive(Debug, Clone, Copy, PartialEq, Eq, Structural)]
pub enum ServiceStartType {
    Boot,
    System,
    Automatic,
    Manual,
    Disabled,
    Unknown,
}

/// The state that a raw Win32 `SERVICE_STATUS_CURRENT_STATE` value stands for.
pub open spec fn state_of_raw(v: u32) -> ServiceState {
    if v == 1 {
        ServiceState::Stopped
    } else if v == 2 {
        ServiceState::StartPending
    } else if v == 3 {
        ServiceState::StopPending
    } else if v == 4 {
        ServiceState::Running
    } else if v == 5 {
        ServiceState::ContinuePending
    } else if v == 6 {
        ServiceState::PausePending
    } else if v == 7 {
        ServiceState::Paused
    } else {
        ServiceState::Unknown
    }
}

impl From<u32> for ServiceState {
    fn from(state: u32) -> (r: Self) {
        match state {
            1 => ServiceState::Stopped,
            2 => ServiceState::StartPending,
            3 => ServiceState::StopPending,
            4 => ServiceState::Running,
            5 => ServiceState::ContinuePending,
            6 => ServiceState::PausePending,
            7 => ServiceState::Paused,
            _ => ServiceState::Unknown,
        }
    }
}

impl vstd::std_specs::convert::FromSpecImpl<u32> for ServiceState {
    open spec fn obeys_from_spec() -> bool {
        true
    }

    open spec fn from_spec(v: u32) -> Self {
        state_of_raw(v)
    }
}

/// The start type that a raw Win32 `SERVICE_START_TYPE` value stands for.
pub open spec fn start_type_of_raw(v: u32) -> ServiceStartType {
    if v == 0 {
        ServiceStartType::Boot
    } else if v == 1 {
        ServiceStartType::System
    } else if v == 2 {
        ServiceStartType::Automatic
    } else if v == 3 {
        ServiceStartType::Manual
    } else if v == 4 {
        ServiceStartType::Disabled
    } else {
        ServiceStartType::Unknown
    }
}

/// The raw Win32 value of a start type; `Unknown` has none.
pub open spec fn raw_of_start_type(t: ServiceStartType) -> Option<u32> {
    match t {
        ServiceStartType::Boot => Some(0),
        ServiceStartType::System => Some(1),
        ServiceStartType::Automatic => Some(2),
        ServiceStartType::Manual => Some(3),
        ServiceStartType::Disabled => Some(4),
        ServiceStartType::Unknown => None,
    }
}

impl ServiceStartType {
    /// Map a raw Win32 `SERVICE_START_TYPE` value to this enum.
    pub fn from_raw(value: u32) -> (r: Self)
        ensures
            r == start_type_of_raw(value),
    {
        match value {
            0 => ServiceStartType::Boot,
            1 => ServiceStartType::System,
            2 => ServiceStartType::Automatic,
            3 => ServiceStartType::Manual,
            4 => ServiceStartType::Disabled,
            _ => ServiceStartType::Unknown,
        }
    }

    /// The raw Win32 value to configure this start type with; none for
    /// `Unknown`, which cannot be configured.
    pub fn to_raw(self) -> (r: Option<u32>)
        ensures
            r == raw_of_start_type(self),
    {
        match self {
            ServiceStartType::Boot => Some(0),
            ServiceStartType::System => Some(1),
            ServiceStartType::Automatic => Some(2),
            ServiceStartType::Manual => Some(3),
            ServiceStartType::Disabled => Some(4),
            ServiceStartType::Unknown => None,
        }
    }
}

/// Reading back the raw value of a configurable start type gives that
/// start type again.
pub proof fn law_start_type_raw_roundtrip(t: ServiceStartType)
    ensures
        raw_of_start_type(t) matches Some(v) ==> start_type_of_raw(v) == t,
        raw_of_start_type(t) is None <==> t == ServiceStartType::Unknown,
{
}

/// Critical system services that must never be stopped, disabled or deleted.
pub open spec fn critical_service_list() -> Seq<&'static str> {
    seq![
        "Winmgmt",
        "RpcSs",
        "EventLog",
        "PlugPlay",
        "Power",
        "ProfSvc",
        "DcomLaunch",
        "RpcEptMapper",
        "SamSs",
        "LSM",
        "WinDefend",
        "Mpssvc",
        "BFE",
        "PolicyAgent",
        "cryptsvc",
        "Dnscache",
        "LanmanServer",
        "LanmanWorkstation",
        "Netlogon",
        "MpsSvc",
    ]
}

/// The service is one of the critical services (exact, case-sensitive name).
pub open spec fn is_critical_service(name: Seq<char>) -> bool {
    exists|i: int| 0 <= i < critical_service_list().len() && #[trigger] critical_service_list()[i]@ == name
}

/// Services that may be disabled to free space.
pub open spec fn cleanup_safe_service_list() -> Seq<&'static str> {
    seq![
        "wuauserv",
        "bits",
        "dosvc",
        "uspso",
        "srservice",
        "vss",
        "wbengine",
        "sdvsvc",
        "Themes",
        "AudioSrv",
        "stisvc",
        "WSearch",
        "SysMain",
    ]
}

/// What a safe stop request does with a service.
#[derive(Debug, Clone, Copy, PartialEq, Eq, Structural)]
pub enum StopDecision {
    /// The service is critical: refuse, report `false`.
    Refuse,
    /// The service does not accept a stop: report `false`.
    NotStoppable,
    /// The service is already stopped: report `true`.
    AlreadyStopped,
    /// Stop the service; report whether that worked.
    StopNow,
}

/// What a safe disable request does with a service.
#[derive(Debug, Clone, Copy, PartialEq, Eq, Structural)]
pub enum DisableDecision {
    /// The service is critical: refuse, report `false`.
    Refuse,
    /// Stop it safely first (it is not stopped), then set it to disabled.
    StopThenDisable,
    /// Set it to disabled.
    Disable,
}

/// Why a service operation was refused.
#[derive(Debug, Clone, Copy, PartialEq, Eq, Structural)]
pub enum ServiceError {
    /// The service is critical.
    CriticalService,
    /// A start type of `Unknown` cannot be set.
    UnknownStartType,
}

/// Rules for touching the services of this machine.
pub struct ServiceManager {
    home_compat: HomeEditionCompat,
}

impl ServiceManager {
    /// A service manager for a machine described by `home_compat`.
    pub fn new(home_compat: HomeEditionCompat) -> (m: Self)
        ensures
            m.home() == home_compat,
    {
        ServiceManager { home_compat }
    }

    /// The edition information this manager works with.
    pub closed spec fn home(&self) -> HomeEditionCompat {
        self.home_compat
    }

    /// Whether a service is safe to disable: it is not a critical service.
    pub fn is_safe_to_disable(&self, service_name: &str) -> (b: bool)
        ensures
            b == !is_critical_service(service_name@),
    {
        let critical: Vec<&'static str> = vec![
            "Winmgmt",
            "RpcSs",
            "EventLog",
            "PlugPlay",
            "Power",
            "ProfSvc",
            "DcomLaunch",
            "RpcEptMapper",
            "SamSs",
            "LSM",
            "WinDefend",
            "Mpssvc",
            "BFE",
            "PolicyAgent",
            "cryptsvc",
            "Dnscache",
            "LanmanServer",
            "LanmanWorkstation",
            "Netlogon",
            "MpsSvc",
        ];
        let mut i: usize = 0;
        while i < critical.len()
            invariant
                i <= critical@.len(),
                critical@ == critical_service_list(),
                forall|j: int| 0 <= j < i ==> critical@[j]@ != service_name@,
            decreases critical@.len() - i,
        {
            if str_eq(critical[i], service_name) {
                return false;
            }
            i += 1;
        }
        true
    }

    /// The services that are safe to disable for cleanup.
    pub fn get_cleanup_safe_services(&self) -> (r: Vec<&'static str>)
        ensures
            r@ == cleanup_safe_service_list(),
    {
        vec![
            "wuauserv",
            "bits",
            "dosvc",
            "uspso",
            "srservice",
            "vss",
            "wbengine",
            "sdvsvc",
            "Themes",
            "AudioSrv",
            "stisvc",
            "WSearch",
            "SysMain",
        ]
    }

    /// What a safe stop of `service_name`, currently described by `info`,
    /// does: refuse critical services, leave services that cannot be stopped,
    /// report stopped services as done, and stop the others.
    pub fn decide_stop(&self, service_name: &str, info: &ServiceInfo) -> (d: StopDecision)
        ensures
            d == (if is_critical_service(service_name@) {
                StopDecision::Refuse
            } else if !info.can_stop {
                StopDecision::NotStoppable
            } else if info.status.current_state == ServiceState::Stopped {
                StopDecision::AlreadyStopped
            } else {
                StopDecision::StopNow
            }),
    {
        if !self.is_safe_to_disable(service_name) {
            StopDecision::Refuse
        } else if !info.can_stop {
            StopDecision::NotStoppable
        } else if info.status.current_state == ServiceState::Stopped {
            StopDecision::AlreadyStopped
        } else {
            StopDecision::StopNow
        }
    }

    /// What a safe disable of `service_name` does: refuse critical services;
    /// stop a service first when its state could be read and it is not
    /// stopped; then set it to disabled.
    pub fn decide_disable(&self, service_name: &str, current_state: Option<ServiceState>) -> (d: DisableDecision)
        ensures
            d == (if is_critical_service(service_name@) {
                DisableDecision::Refuse
            } else if current_state matches Some(st) && st != ServiceState::Stopped {
                DisableDecision::StopThenDisable
            } else {
                DisableDecision::Disable
            }),
    {
        if !self.is_safe_to_disable(service_name) {
            DisableDecision::Refuse
        } else {
            match current_state {
                Some(st) => {
                    if st != ServiceState::Stopped {
                        DisableDecision::StopThenDisable
                    } else {
                        DisableDecision::Disable
                    }
                },
                None => DisableDecision::Disable,
            }
        }
    }

    /// Whether a service may be deleted: critical services may not.
    pub fn check_delete(&self, service_name: &str) -> (r: Result<(), ServiceError>)
        ensures
            r is Ok <==> !is_critical_service(service_name@),
            r is Err ==> r == Err::<(), ServiceError>(ServiceError::CriticalService),
    {
        if self.is_safe_to_disable(service_name) {
            Ok(())
        } else {
            Err(ServiceError::CriticalService)
        }
    }

    /// The raw start type to configure: `Unknown` cannot be set.
    pub fn start_type_value(start_type: ServiceStartType) -> (r: Result<u32, ServiceError>)
        ensures
            match raw_of_start_type(start_type) {
                Some(v) => r == Ok::<u32, ServiceError>(v),
                None => r == Err::<u32, ServiceError>(ServiceError::UnknownStartType),
            },
    {
        match start_type.to_raw() {
            Some(v) => Ok(v),
            None => Err(ServiceError::UnknownStartType),
        }
    }

    /// The start type a re-enabled service gets.
    pub fn re_enable_start_type() -> (t: ServiceStartType)
        ensures
            t == ServiceStartType::Automatic,
    {
        ServiceStartType::Automatic
    }

    /// Service state as display text.
    pub fn state_to_string(state: ServiceState) -> (s: &'static str)
        ensures
            s@ == match state {
                ServiceState::Stopped => "Stopped"@,
                ServiceState::StartPending => "Starting"@,
                ServiceState::StopPending => "Stopping"@,
                ServiceState::Running => "Running"@,
                ServiceState::ContinuePending => "Resuming"@,
                ServiceState::PausePending => "Pausing"@,
                ServiceState::Paused => "Paused"@,
                ServiceState::Unknown => "Unknown"@,
            },
    {
        match state {
            ServiceState::Stopped => "Stopped",
            ServiceState::StartPending => "Starting",
            ServiceState::StopPending => "Stopping",
            ServiceState::Running => "Running",
            ServiceState::ContinuePending => "Resuming",
            ServiceState::PausePending => "Pausing",
            ServiceState::Paused => "Paused",
            ServiceState::Unknown => "Unknown",
        }
    }

    /// Start type as display text.
    pub fn start_type_to_string(start_type: ServiceStartType) -> (s: &'static str)
        ensures
            s@ == match start_type {
                ServiceStartType::Boot => "Boot"@,
                ServiceStartType::System => "System"@,
                ServiceStartType::Automatic => "Automatic"@,
                ServiceStartType::Manual => "Manual"@,
                ServiceStartType::Disabled => "Disabled"@,
                ServiceStartType::Unknown => "Unknown"@,
            },
    {
        match start_type {
            ServiceStartType::Boot => "Boot",
            ServiceStartType::System => "System",
            ServiceStartType::Automatic => "Automatic",
            ServiceStartType::Manual => "Manual",
            ServiceStartType::Disabled => "Disabled",
            ServiceStartType::Unknown => "Unknown",
        }
    }

    /// Whether the machine runs a Home edition.
    pub fn is_home_edition(&self) -> (b: bool)
        ensures
            b == self.home().is_home(),
    {
        self.home_compat.is_home_edition()
    }

    /// Limits of service management on Home editions; none elsewhere.
    pub fn get_home_edition_limitations(&self) -> (r: Vec<String>)
        ensures
            self.home().is_home() ==> r@.len() == 3 && r@[0]@
                == "Limited service management capabilities"@ && r@[1]@
                == "Some system services may be protected"@ && r@[2]@
                == "Group Policy-based service configurations not available"@,
            !self.home().is_home() ==> r@.len() == 0,
    {
        let mut v: Vec<String> = Vec::new();
        if self.home_compat.is_home_edition() {
            v.push(to_owned("Limited service management capabilities"));
            v.push(to_owned("Some system services may be protected"));
            v.push(to_owned("Group Policy-based service configurations not available"));
        }
        v
    }
}


/// The critical services, which are never stopped, disabled or deleted, are
/// exactly Winmgmt, RpcSs, EventLog, PlugPlay, Power, ProfSvc, DcomLaunch,
/// RpcEptMapper, SamSs, LSM, WinDefend, Mpssvc, BFE, PolicyAgent, cryptsvc,
/// Dnscache, LanmanServer, LanmanWorkstation, Netlogon and MpsSvc (names
/// compared exactly).
pub proof fn law_critical_services(name: Seq<char>)
    ensures
        is_critical_service(name) <==> (name == "Winmgmt"@ || name == "RpcSs"@ || name == "EventLog"@ || name == "PlugPlay"@ || name == "Power"@ || name == "ProfSvc"@ || name == "DcomLaunch"@ || name == "RpcEptMapper"@ || name == "SamSs"@ || name == "LSM"@ || name == "WinDefend"@ || name == "Mpssvc"@ || name == "BFE"@ || name == "PolicyAgent"@ || name == "cryptsvc"@ || name == "Dnscache"@ || name == "LanmanServer"@ || name == "LanmanWorkstation"@ || name == "Netlogon"@ || name == "MpsSvc"@),
{
    let list = critical_service_list();
    assert(list.len() == 20);
    if name == "Winmgmt"@ || name == "RpcSs"@ || name == "EventLog"@ || name == "PlugPlay"@ || name == "Power"@ || name == "ProfSvc"@ || name == "DcomLaunch"@ || name == "RpcEptMapper"@ || name == "SamSs"@ || name == "LSM"@ || name == "WinDefend"@ || name == "Mpssvc"@ || name == "BFE"@ || name == "PolicyAgent"@ || name == "cryptsvc"@ || name == "Dnscache"@ || name == "LanmanServer"@ || name == "LanmanWorkstation"@ || name == "Netlogon"@ || name == "MpsSvc"@ {
        if name == "Winmgmt"@ {
            assert(list[0]@ == name);
        }
        if name == "RpcSs"@ {
            assert(list[1]@ == name);
        }
        if name == "EventLog"@ {
            assert(list[2]@ == name);
        }
        if name == "PlugPlay"@ {
            assert(list[3]@ == name);
        }
        if name == "Power"@ {
            assert(list[4]@ == name);
        }
        if name == "ProfSvc"@ {
            assert(list[5]@ == name);
        }
        if name == "DcomLaunch"@ {
            assert(list[6]@ == name);
        }
        if name == "RpcEptMapper"@ {
            assert(list[7]@ == name);
        }
        if name == "SamSs"@ {
            assert(list[8]@ == name);
        }
        if name == "LSM"@ {
            assert(list[9]@ == name);
        }
        if name == "WinDefend"@ {
            assert(list[10]@ == name);
        }
        if name == "Mpssvc"@ {
            assert(list[11]@ == name);
        }
        if name == "BFE"@ {
            assert(list[12]@ == name);
        }
        if name == "PolicyAgent"@ {
            assert(list[13]@ == name);
        }
        if name == "cryptsvc"@ {
            assert(list[14]@ == name);
        }
        if name == "Dnscache"@ {
            assert(list[15]@ == name);
        }
        if name == "LanmanServer"@ {
            assert(list[16]@ == name);
        }
        if name == "LanmanWorkstation"@ {
            assert(list[17]@ == name);
        }
        if name == "Netlogon"@ {
            assert(list[18]@ == name);
        }
        if name == "MpsSvc"@ {
            assert(list[19]@ == name);
        }
    }
    if is_critical_service(name) {
        let i = choose|i: int| 0 <= i < list.len() && #[trigger] list[i]@ == name;
            if i == 0 {
                assert(list[0]@ == "Winmgmt"@);
            } else if i == 1 {
                assert(list[1]@ == "RpcSs"@);
            } else if i == 2 {
                assert(list[2]@ == "EventLog"@);
            } else if i == 3 {
                assert(list[3]@ == "PlugPlay"@);
            } else if i == 4 {
                assert(list[4]@ == "Power"@);
            } else if i == 5 {
                assert(list[5]@ == "ProfSvc"@);
            } else if i == 6 {
                assert(list[6]@ == "DcomLaunch"@);
            } else if i == 7 {
                assert(list[7]@ == "RpcEptMapper"@);
            } else if i == 8 {
                assert(list[8]@ == "SamSs"@);
            } else if i == 9 {
                assert(list[9]@ == "LSM"@);
            } else if i == 10 {
                assert(list[10]@ == "WinDefend"@);
            } else if i == 11 {
                assert(list[11]@ == "Mpssvc"@);
            } else if i == 12 {
                assert(list[12]@ == "BFE"@);
            } else if i == 13 {
                assert(list[13]@ == "PolicyAgent"@);
            } else if i == 14 {
                assert(list[14]@ == "cryptsvc"@);
            } else if i == 15 {
                assert(list[15]@ == "Dnscache"@);
            } else if i == 16 {
                assert(list[16]@ == "LanmanServer"@);
            } else if i == 17 {
                assert(list[17]@ == "LanmanWorkstation"@);
            } else if i == 18 {
                assert(list[18]@ == "Netlogon"@);
            } else if i == 19 {
                assert(list[19]@ == "MpsSvc"@);
            }
    }
}


/// The services offered for disabling to free space are wuauserv, bits,
/// dosvc, uspso, srservice, vss, wbengine, sdvsvc, Themes, AudioSrv,
/// stisvc, WSearch and SysMain, in that order, and none of them is a
/// critical service.
pub proof fn law_cleanup_safe_services()
    ensures
        cleanup_safe_service_list().map_values(|n: &'static str| n@) == seq!["wuauserv"@, "bits"@, "dosvc"@, "uspso"@, "srservice"@, "vss"@, "wbengine"@, "sdvsvc"@, "Themes"@, "AudioSrv"@, "stisvc"@, "WSearch"@, "SysMain"@],
        forall|i: int| 0 <= i < cleanup_safe_service_list().len() ==> !is_critical_service(
            #[trigger] cleanup_safe_service_list()[i]@,
        ),
{
    reveal_strlit("wuauserv");
    reveal_strlit("bits");
    reveal_strlit("dosvc");
    reveal_strlit("uspso");
    reveal_strlit("srservice");
    reveal_strlit("vss");
    reveal_strlit("wbengine");
    reveal_strlit("sdvsvc");
    reveal_strlit("Themes");
    reveal_strlit("AudioSrv");
    reveal_strlit("stisvc");
    reveal_strlit("WSearch");
    reveal_strlit("SysMain");
    reveal_strlit("Winmgmt");
    reveal_strlit("RpcSs");
    reveal_strlit("EventLog");
    reveal_strlit("PlugPlay");
    reveal_strlit("Power");
    reveal_strlit("ProfSvc");
    reveal_strlit("DcomLaunch");
    reveal_strlit("RpcEptMapper");
    reveal_strlit("SamSs");
    reveal_strlit("LSM");
    reveal_strlit("WinDefend");
    reveal_strlit("Mpssvc");
    reveal_strlit("BFE");
    reveal_strlit("PolicyAgent");
    reveal_strlit("cryptsvc");
    reveal_strlit("Dnscache");
    reveal_strlit("LanmanServer");
    reveal_strlit("LanmanWorkstation");
    reveal_strlit("Netlogon");
    reveal_strlit("MpsSvc");
    assert(cleanup_safe_service_list().map_values(|n: &'static str| n@) =~= seq!["wuauserv"@, "bits"@, "dosvc"@, "uspso"@, "srservice"@, "vss"@, "wbengine"@, "sdvsvc"@, "Themes"@, "AudioSrv"@, "stisvc"@, "WSearch"@, "SysMain"@]);
    assert forall|i: int| 0 <= i < cleanup_safe_service_list().len() implies !is_critical_service(
        #[trigger] cleanup_safe_service_list()[i]@,
    ) by {
        law_critical_services(cleanup_safe_service_list()[i]@);
        if i == 0 {
            assert(cleanup_safe_service_list()[0]@ == "wuauserv"@);
            assert("wuauserv"@.len() != "Winmgmt"@.len());
            assert("wuauserv"@.len() != "RpcSs"@.len());
            assert("wuauserv"@[0] != "EventLog"@[0]);
            assert("wuauserv"@[0] != "PlugPlay"@[0]);
            assert("wuauserv"@.len() != "Power"@.len());
            assert("wuauserv"@.len() != "ProfSvc"@.len());
            assert("wuauserv"@.len() != "DcomLaunch"@.len());
            assert("wuauserv"@.len() != "RpcEptMapper"@.len());
            assert("wuauserv"@.len() != "SamSs"@.len());
            assert("wuauserv"@.len() != "LSM"@.len());
            assert("wuauserv"@.len() != "WinDefend"@.len());
            assert("wuauserv"@.len() != "Mpssvc"@.len());
            assert("wuauserv"@.len() != "BFE"@.len());
            assert("wuauserv"@.len() != "PolicyAgent"@.len());
            assert("wuauserv"@[0] != "cryptsvc"@[0]);
            assert("wuauserv"@[0] != "Dnscache"@[0]);
            assert("wuauserv"@.len() != "LanmanServer"@.len());
            assert("wuauserv"@.len() != "LanmanWorkstation"@.len());
            assert("wuauserv"@[0] != "Netlogon"@[0]);
            assert("wuauserv"@.len() != "MpsSvc"@.len());
        }
        if i == 1 {
            assert(cleanup_safe_service_list()[1]@ == "bits"@);
            assert("bits"@.len() != "Winmgmt"@.len());
            assert("bits"@.len() != "RpcSs"@.len());
            assert("bits"@.len() != "EventLog"@.len());
            assert("bits"@.len() != "PlugPlay"@.len());
            assert("bits"@.len() != "Power"@.len());
            assert("bits"@.len() != "ProfSvc"@.len());
            assert("bits"@.len() != "DcomLaunch"@.len());
            assert("bits"@.len() != "RpcEptMapper"@.len());
            assert("bits"@.len() != "SamSs"@.len());
            assert("bits"@.len() != "LSM"@.len());
            assert("bits"@.len() != "WinDefend"@.len());
            assert("bits"@.len() != "Mpssvc"@.len());
            assert("bits"@.len() != "BFE"@.len());
            assert("bits"@.len() != "PolicyAgent"@.len());
            assert("bits"@.len() != "cryptsvc"@.len());
            assert("bits"@.len() != "Dnscache"@.len());
            assert("bits"@.len() != "LanmanServer"@.len());
            assert("bits"@.len() != "LanmanWorkstation"@.len());
            assert("bits"@.len() != "Netlogon"@.len());
            assert("bits"@.len() != "MpsSvc"@.len());
        }
        if i == 2 {
            assert(cleanup_safe_service_list()[2]@ == "dosvc"@);
            assert("dosvc"@.len() != "Winmgmt"@.len());
            assert("dosvc"@[0] != "RpcSs"@[0]);
            assert("dosvc"@.len() != "EventLog"@.len());
            assert("dosvc"@.len() != "PlugPlay"@.len());
            assert("dosvc"@[0] != "Power"@[0]);
            assert("dosvc"@.len() != "ProfSvc"@.len());
            assert("dosvc"@.len() != "DcomLaunch"@.len());
            assert("dosvc"@.len() != "RpcEptMapper"@.len());
            assert("dosvc"@[0] != "SamSs"@[0]);
            assert("dosvc"@.len() != "LSM"@.len());
            assert("dosvc"@.len() != "WinDefend"@.len());
            assert("dosvc"@.len() != "Mpssvc"@.len());
            assert("dosvc"@.len() != "BFE"@.len());
            assert("dosvc"@.len() != "PolicyAgent"@.len());
            assert("dosvc"@.len() != "cryptsvc"@.len());
            assert("dosvc"@.len() != "Dnscache"@.len());
            assert("dosvc"@.len() != "LanmanServer"@.len());
            assert("dosvc"@.len() != "LanmanWorkstation"@.len());
            assert("dosvc"@.len() != "Netlogon"@.len());
            assert("dosvc"@.len() != "MpsSvc"@.len());
        }
        if i == 3 {
            assert(cleanup_safe_service_list()[3]@ == "uspso"@);
            assert("uspso"@.len() != "Winmgmt"@.len());
            assert("uspso"@[0] != "RpcSs"@[0]);
            assert("uspso"@.len() != "EventLog"@.len());
            assert("uspso"@.len() != "PlugPlay"@.len());
            assert("uspso"@[0] != "Power"@[0]);
            assert("uspso"@.len() != "ProfSvc"@.len());
            assert("uspso"@.len() != "DcomLaunch"@.len());
            assert("uspso"@.len() != "RpcEptMapper"@.len());
            assert("uspso"@[0] != "SamSs"@[0]);
            assert("uspso"@.len() != "LSM"@.len());
            assert("uspso"@.len() != "WinDefend"@.len());
            assert("uspso"@.len() != "Mpssvc"@.len());
            assert("uspso"@.len() != "BFE"@.len());
            assert("uspso"@.len() != "PolicyAgent"@.len());
            assert("uspso"@.len() != "cryptsvc"@.len());
            assert("uspso"@.len() != "Dnscache"@.len());
            assert("uspso"@.len() != "LanmanServer"@.len());
            assert("uspso"@.len() != "LanmanWorkstation"@.len());
            assert("uspso"@.len() != "Netlogon"@.len());
            assert("uspso"@.len() != "MpsSvc"@.len());
        }
        if i == 4 {
            assert(cleanup_safe_service_list()[4]@ == "srservice"@);
            assert("srservice"@.len() != "Winmgmt"@.len());
            assert("srservice"@.len() != "RpcSs"@.len());
            assert("srservice"@.len() != "EventLog"@.len());
            assert("srservice"@.len() != "PlugPlay"@.len());
            assert("srservice"@.len() != "Power"@.len());
            assert("srservice"@.len() != "ProfSvc"@.len());
            assert("srservice"@.len() != "DcomLaunch"@.len());
            assert("srservice"@.len() != "RpcEptMapper"@.len());
            assert("srservice"@.len() != "SamSs"@.len());
            assert("srservice"@.len() != "LSM"@.len());
            assert("srservice"@[0] != "WinDefend"@[0]);
            assert("srservice"@.len() != "Mpssvc"@.len());
            assert("srservice"@.len() != "BFE"@.len());
            assert("srservice"@.len() != "PolicyAgent"@.len());
            assert("srservice"@.len() != "cryptsvc"@.len());
            assert("srservice"@.len() != "Dnscache"@.len());
            assert("srservice"@.len() != "LanmanServer"@.len());
            assert("srservice"@.len() != "LanmanWorkstation"@.len());
            assert("srservice"@.len() != "Netlogon"@.len());
            assert("srservice"@.len() != "MpsSvc"@.len());
        }
        if i == 5 {
            assert(cleanup_safe_service_list()[5]@ == "vss"@);
            assert("vss"@.len() != "Winmgmt"@.len());
            assert("vss"@.len() != "RpcSs"@.len());
            assert("vss"@.len() != "EventLog"@.len());
            assert("vss"@.len() != "PlugPlay"@.len());
            assert("vss"@.len() != "Power"@.len());
            assert("vss"@.len() != "ProfSvc"@.len());
            assert("vss"@.len() != "DcomLaunch"@.len());
            assert("vss"@.len() != "RpcEptMapper"@.len());
            assert("vss"@.len() != "SamSs"@.len());
            assert("vss"@[0] != "LSM"@[0]);
            assert("vss"@.len() != "WinDefend"@.len());
            assert("vss"@.len() != "Mpssvc"@.len());
            assert("vss"@[0] != "BFE"@[0]);
            assert("vss"@.len() != "PolicyAgent"@.len());
            assert("vss"@.len() != "cryptsvc"@.len());
            assert("vss"@.len() != "Dnscache"@.len());
            assert("vss"@.len() != "LanmanServer"@.len());
            assert("vss"@.len() != "LanmanWorkstation"@.len());
            assert("vss"@.len() != "Netlogon"@.len());
            assert("vss"@.len() != "MpsSvc"@.len());
        }
        if i == 6 {
            assert(cleanup_safe_service_list()[6]@ == "wbengine"@);
            assert("wbengine"@.len() != "Winmgmt"@.len());
            assert("wbengine"@.len() != "RpcSs"@.len());
            assert("wbengine"@[0] != "EventLog"@[0]);
            assert("wbengine"@[0] != "PlugPlay"@[0]);
            assert("wbengine"@.len() != "Power"@.len());
            assert("wbengine"@.len() != "ProfSvc"@.len());
            assert("wbengine"@.len() != "DcomLaunch"@.len());
            assert("wbengine"@.len() != "RpcEptMapper"@.len());
            assert("wbengine"@.len() != "SamSs"@.len());
            assert("wbengine"@.len() != "LSM"@.len());
            assert("wbengine"@.len() != "WinDefend"@.len());
            assert("wbengine"@.len() != "Mpssvc"@.len());
            assert("wbengine"@.len() != "BFE"@.len());
            assert("wbengine"@.len() != "PolicyAgent"@.len());
            assert("wbengine"@[0] != "cryptsvc"@[0]);
            assert("wbengine"@[0] != "Dnscache"@[0]);
            assert("wbengine"@.len() != "LanmanServer"@.len());
            assert("wbengine"@.len() != "LanmanWorkstation"@.len());
            assert("wbengine"@[0] != "Netlogon"@[0]);
            assert("wbengine"@.len() != "MpsSvc"@.len());
        }
        if i == 7 {
            assert(cleanup_safe_service_list()[7]@ == "sdvsvc"@);
            assert("sdvsvc"@.len() != "Winmgmt"@.len());
            assert("sdvsvc"@.len() != "RpcSs"@.len());
            assert("sdvsvc"@.len() != "EventLog"@.len());
            assert("sdvsvc"@.len() != "PlugPlay"@.len());
            assert("sdvsvc"@.len() != "Power"@.len());
            assert("sdvsvc"@.len() != "ProfSvc"@.len());
            assert("sdvsvc"@.len() != "DcomLaunch"@.len());
            assert("sdvsvc"@.len() != "RpcEptMapper"@.len());
            assert("sdvsvc"@.len() != "SamSs"@.len());
            assert("sdvsvc"@.len() != "LSM"@.len());
            assert("sdvsvc"@.len() != "WinDefend"@.len());
            assert("sdvsvc"@[0] != "Mpssvc"@[0]);
            assert("sdvsvc"@.len() != "BFE"@.len());
            assert("sdvsvc"@.len() != "PolicyAgent"@.len());
            assert("sdvsvc"@.len() != "cryptsvc"@.len());
            assert("sdvsvc"@.len() != "Dnscache"@.len());
            assert("sdvsvc"@.len() != "LanmanServer"@.len());
            assert("sdvsvc"@.len() != "LanmanWorkstation"@.len());
            assert("sdvsvc"@.len() != "Netlogon"@.len());
            assert("sdvsvc"@[0] != "MpsSvc"@[0]);
        }
        if i == 8 {
            assert(cleanup_safe_service_list()[8]@ == "Themes"@);
            assert("Themes"@.len() != "Winmgmt"@.len());
            assert("Themes"@.len() != "RpcSs"@.len());
            assert("Themes"@.len() != "EventLog"@.len());
            assert("Themes"@.len() != "PlugPlay"@.len());
            assert("Themes"@.len() != "Power"@.len());
            assert("Themes"@.len() != "ProfSvc"@.len());
            assert("Themes"@.len() != "DcomLaunch"@.len());
            assert("Themes"@.len() != "RpcEptMapper"@.len());
            assert("Themes"@.len() != "SamSs"@.len());
            assert("Themes"@.len() != "LSM"@.len());
            assert("Themes"@.len() != "WinDefend"@.len());
            assert("Themes"@[0] != "Mpssvc"@[0]);
            assert("Themes"@.len() != "BFE"@.len());
            assert("Themes"@.len() != "PolicyAgent"@.len());
            assert("Themes"@.len() != "cryptsvc"@.len());
            assert("Themes"@.len() != "Dnscache"@.len());
            assert("Themes"@.len() != "LanmanServer"@.len());
            assert("Themes"@.len() != "LanmanWorkstation"@.len());
            assert("Themes"@.len() != "Netlogon"@.len());
            assert("Themes"@[0] != "MpsSvc"@[0]);
        }
        if i == 9 {
            assert(cleanup_safe_service_list()[9]@ == "AudioSrv"@);
            assert("AudioSrv"@.len() != "Winmgmt"@.len());
            assert("AudioSrv"@.len() != "RpcSs"@.len());
            assert("AudioSrv"@[0] != "EventLog"@[0]);
            assert("AudioSrv"@[0] != "PlugPlay"@[0]);
            assert("AudioSrv"@.len() != "Power"@.len());
            assert("AudioSrv"@.len() != "ProfSvc"@.len());
            assert("AudioSrv"@.len() != "DcomLaunch"@.len());
            assert("AudioSrv"@.len() != "RpcEptMapper"@.len());
            assert("AudioSrv"@.len() != "SamSs"@.len());
            assert("AudioSrv"@.len() != "LSM"@.len());
            assert("AudioSrv"@.len() != "WinDefend"@.len());
            assert("AudioSrv"@.len() != "Mpssvc"@.len());
            assert("AudioSrv"@.len() != "BFE"@.len());
            assert("AudioSrv"@.len() != "PolicyAgent"@.len());
            assert("AudioSrv"@[0] != "cryptsvc"@[0]);
            assert("AudioSrv"@[0] != "Dnscache"@[0]);
            assert("AudioSrv"@.len() != "LanmanServer"@.len());
            assert("AudioSrv"@.len() != "LanmanWorkstation"@.len());
            assert("AudioSrv"@[0] != "Netlogon"@[0]);
            assert("AudioSrv"@.len() != "MpsSvc"@.len());
        }
        if i == 10 {
            assert(cleanup_safe_service_list()[10]@ == "stisvc"@);
            assert("stisvc"@.len() != "Winmgmt"@.len());
            assert("stisvc"@.len() != "RpcSs"@.len());
            assert("stisvc"@.len() != "EventLog"@.len());
            assert("stisvc"@.len() != "PlugPlay"@.len());
            assert("stisvc"@.len() != "Power"@.len());
            assert("stisvc"@.len() != "ProfSvc"@.len());
            assert("stisvc"@.len() != "DcomLaunch"@.len());
            assert("stisvc"@.len() != "RpcEptMapper"@.len());
            assert("stisvc"@.len() != "SamSs"@.len());
            assert("stisvc"@.len() != "LSM"@.len());
            assert("stisvc"@.len() != "WinDefend"@.len());
            assert("stisvc"@[0] != "Mpssvc"@[0]);
            assert("stisvc"@.len() != "BFE"@.len());
            assert("stisvc"@.len() != "PolicyAgent"@.len());
            assert("stisvc"@.len() != "cryptsvc"@.len());
            assert("stisvc"@.len() != "Dnscache"@.len());
            assert("stisvc"@.len() != "LanmanServer"@.len());
            assert("stisvc"@.len() != "LanmanWorkstation"@.len());
            assert("stisvc"@.len() != "Netlogon"@.len());
            assert("stisvc"@[0] != "MpsSvc"@[0]);
        }
        if i == 11 {
            assert(cleanup_safe_service_list()[11]@ == "WSearch"@);
            assert("WSearch"@[1] != "Winmgmt"@[1]);
            assert("WSearch"@.len() != "RpcSs"@.len());
            assert("WSearch"@.len() != "EventLog"@.len());
            assert("WSearch"@.len() != "PlugPlay"@.len());
            assert("WSearch"@.len() != "Power"@.len());
            assert("WSearch"@[0] != "ProfSvc"@[0]);
            assert("WSearch"@.len() != "DcomLaunch"@.len());
            assert("WSearch"@.len() != "RpcEptMapper"@.len());
            assert("WSearch"@.len() != "SamSs"@.len());
            assert("WSearch"@.len() != "LSM"@.len());
            assert("WSearch"@.len() != "WinDefend"@.len());
            assert("WSearch"@.len() != "Mpssvc"@.len());
            assert("WSearch"@.len() != "BFE"@.len());
            assert("WSearch"@.len() != "PolicyAgent"@.len());
            assert("WSearch"@.len() != "cryptsvc"@.len());
            assert("WSearch"@.len() != "Dnscache"@.len());
            assert("WSearch"@.len() != "LanmanServer"@.len());
            assert("WSearch"@.len() != "LanmanWorkstation"@.len());
            assert("WSearch"@.len() != "Netlogon"@.len());
            assert("WSearch"@.len() != "MpsSvc"@.len());
        }
        if i == 12 {
            assert(cleanup_safe_service_list()[12]@ == "SysMain"@);
            assert("SysMain"@[0] != "Winmgmt"@[0]);
            assert("SysMain"@.len() != "RpcSs"@.len());
            assert("SysMain"@.len() != "EventLog"@.len());
            assert("SysMain"@.len() != "PlugPlay"@.len());
            assert("SysMain"@.len() != "Power"@.len());
            assert("SysMain"@[0] != "ProfSvc"@[0]);
            assert("SysMain"@.len() != "DcomLaunch"@.len());
            assert("SysMain"@.len() != "RpcEptMapper"@.len());
            assert("SysMain"@.len() != "SamSs"@.len());
            assert("SysMain"@.len() != "LSM"@.len());
            assert("SysMain"@.len() != "WinDefend"@.len());
            assert("SysMain"@.len() != "Mpssvc"@.len());
            assert("SysMain"@.len() != "BFE"@.len());
            assert("SysMain"@.len() != "PolicyAgent"@.len());
            assert("SysMain"@.len() != "cryptsvc"@.len());
            assert("SysMain"@.len() != "Dnscache"@.len());
            assert("SysMain"@.len() != "LanmanServer"@.len());
            assert("SysMain"@.len() != "LanmanWorkstation"@.len());
            assert("SysMain"@.len() != "Netlogon"@.len());
            assert("SysMain"@.len() != "MpsSvc"@.len());
        }
    }
}

} // verus!
