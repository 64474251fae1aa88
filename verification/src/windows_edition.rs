//! Windows edition detection and the features each edition offers.
use vstd::prelude::*;
use crate::text::{contains_seq, lowercase, parse_u32, parse_unsigned, str_contains, to_lower, to_owned};

verus! {

/// Windows editions.
#[derive(Debug, Clone, Copy, PartialEq, Eq, Structural)]
pub enum WindowsEdition {
    Home,
    Pro,
    Enterprise,
    Education,
    ProEducation,
    ProForWorkstations,
    Unknown,
}

/// Windows features available on a machine.
#[derive(Debug, Clone, Copy, PartialEq, Eq, Structural)]
pub struct WindowsFeatures {
    pub has_group_policy: bool,
    pub has_hyper_v: bool,
    pub has_bitlocker: bool,
    pub has_device_encryption: bool,
    pub has_remote_desktop: bool,
    pub has_wsl: bool,
    pub has_wsl2: bool,
    pub has_docker_desktop: bool,
    pub has_diskpart: bool,
    pub has_power_shell_7: bool,
    pub has_windows_sandbox: bool,
    pub has_windows_defender_exploit_guard: bool,
    pub has_windows_defender_application_control: bool,
    pub has_windows_defender_network_inspection: bool,
    pub has_windows_defender_tamper_protection: bool,
}

/// What probing the machine found out about optional software.
#[derive(Debug, Clone, Copy, PartialEq, Eq, Structural)]
pub struct FeatureProbes {
    /// WSL is installed.
    pub wsl: bool,
    /// WSL2 is available (only consulted when WSL is installed).
    pub wsl2: bool,
    /// Docker Desktop is installed.
    pub docker_desktop: bool,
    /// PowerShell 7 is installed.
    pub power_shell_7: bool,
}

/// Why the edition detector could not describe the machine.
#[derive(Debug, Clone, Copy, PartialEq, Eq, Structural)]
pub enum EditionError {
    /// The build number could not be read.
    BuildNumberUnreadable,
    /// The build number is not a number.
    BuildNumberInvalid,
    /// Neither `DisplayVersion` nor `CurrentVersion` could be read.
    VersionUnreadable,
}

/// Windows edition and feature detector.
pub struct WindowsEditionDetector {
    edition: WindowsEdition,
    features: WindowsFeatures,
    build_number: u32,
    version: String,
}

/// Windows compatibility report.
#[derive(Debug, Clone)]
pub struct WindowsCompatibilityReport {
    pub edition: WindowsEdition,
    pub version: String,
    pub build_number: u32,
    pub features: WindowsFeatures,
    pub limitations: Vec<String>,
    pub recommendations: Vec<String>,
}

/// The edition named by an edition string, matched in lowercase.
pub open spec fn edition_of(s: Seq<char>) -> WindowsEdition {
    let l = lowercase(s);
    if contains_seq(l, "home"@) {
        WindowsEdition::Home
    } else if contains_seq(l, "pro"@) && contains_seq(l, "education"@) {
        WindowsEdition::ProEducation
    } else if contains_seq(l, "pro"@) && contains_seq(l, "workstation"@) {
        WindowsEdition::ProForWorkstations
    } else if contains_seq(l, "pro"@) {
        WindowsEdition::Pro
    } else if contains_seq(l, "enterprise"@) {
        WindowsEdition::Enterprise
    } else if contains_seq(l, "education"@) {
        WindowsEdition::Education
    } else {
        WindowsEdition::Unknown
    }
}

/// The edition named by the first readable registry value that names one.
pub open spec fn edition_from_values(vals: Seq<Option<Seq<char>>>) -> WindowsEdition
    decreases vals.len(),
{
    if vals.len() == 0 {
        WindowsEdition::Unknown
    } else {
        match vals[0] {
            Some(s) => if edition_of(s) != WindowsEdition::Unknown {
                edition_of(s)
            } else {
                edition_from_values(vals.drop_first())
            },
            None => edition_from_values(vals.drop_first()),
        }
    }
}

/// The views of optional strings.
pub open spec fn opt_views(v: Seq<Option<String>>) -> Seq<Option<Seq<char>>> {
    v.map_values(|o: Option<String>| match o { Some(s) => Some(s@), None => None })
}

/// Edition-dependent features, before probing.
pub open spec fn edition_features(edition: WindowsEdition, build: u32, probes: FeatureProbes) -> WindowsFeatures {
    let full = edition == WindowsEdition::Pro || edition == WindowsEdition::Enterprise || edition
        == WindowsEdition::Education || edition == WindowsEdition::ProEducation || edition
        == WindowsEdition::ProForWorkstations;
    WindowsFeatures {
        has_group_policy: full,
        has_hyper_v: full,
        has_bitlocker: full,
        has_device_encryption: full || (edition == WindowsEdition::Home && build >= 1703),
        has_remote_desktop: full,
        has_wsl: probes.wsl,
        has_wsl2: probes.wsl && probes.wsl2,
        has_docker_desktop: probes.docker_desktop,
        has_diskpart: true,
        has_power_shell_7: probes.power_shell_7,
        has_windows_sandbox: full && build >= 18305,
        has_windows_defender_exploit_guard: full,
        has_windows_defender_application_control: full,
        has_windows_defender_network_inspection: build >= 18362,
        has_windows_defender_tamper_protection: build >= 18362,
    }
}

/// The limitations a compatibility report lists.
pub open spec fn report_limitations(edition: WindowsEdition, f: WindowsFeatures) -> Seq<Seq<char>> {
    let base = if edition == WindowsEdition::Home {
        seq![
            "No Group Policy Editor"@,
            "No Hyper-V virtualization"@,
            "No BitLocker drive encryption"@,
            "No Remote Desktop host"@,
            "No Windows Sandbox"@,
            "Limited Windows Defender features"@,
        ]
    } else {
        Seq::empty()
    };
    if !f.has_wsl {
        base.push("WSL not available"@)
    } else if !f.has_wsl2 {
        base.push("WSL2 not available"@)
    } else {
        base
    }
}

/// The recommendations a compatibility report lists.
pub open spec fn report_recommendations(edition: WindowsEdition, f: WindowsFeatures) -> Seq<Seq<char>> {
    let base = if edition == WindowsEdition::Home {
        seq![
            "Use Device Encryption instead of BitLocker"@,
            "Use third-party virtualization software"@,
            "Use third-party remote desktop solutions"@,
        ]
    } else if edition == WindowsEdition::Pro {
        seq!["Enable Hyper-V for WSL2 support"@, "Consider Windows Sandbox for testing"@]
    } else {
        Seq::empty()
    };
    let wsl = if !f.has_wsl {
        base.push("Install WSL from Microsoft Store or enable Windows feature"@)
    } else if !f.has_wsl2 {
        base.push("Update to Windows 10 build 18362 or later"@)
    } else {
        base
    };
    if !f.has_docker_desktop {
        wsl.push("Install Docker Desktop for container support"@)
    } else {
        wsl
    }
}

/// The views of a vector of strings.
pub open spec fn string_views(v: Seq<String>) -> Seq<Seq<char>> {
    v.map_values(|s: String| s@)
}

/// Append a copy of `t` to `v`.
fn push_text(v: &mut Vec<String>, t: &str)
    ensures
        string_views(final(v)@) == string_views(old(v)@).push(t@),
{
    let ghost before = v@;
    v.push(to_owned(t));
    assert(string_views(v@) =~= string_views(before).push(t@));
}

impl WindowsEditionDetector {
    /// A detector for a machine whose edition, build, version and probe
    /// results are known.
    pub fn new(edition: WindowsEdition, build_number: u32, version: String, probes: FeatureProbes) -> (d: Self)
        ensures
            d.edition_spec() == edition,
            d.build_spec() == build_number,
            d.version_spec() == version@,
            d.features_spec() == edition_features(edition, build_number, probes),
    {
        let features = Self::detect_features(edition, build_number, probes);
        WindowsEditionDetector { edition, features, build_number, version }
    }

    /// The detected edition.
    pub closed spec fn edition_spec(&self) -> WindowsEdition {
        self.edition
    }

    /// The detected build number.
    pub closed spec fn build_spec(&self) -> u32 {
        self.build_number
    }

    /// The detected version text.
    pub closed spec fn version_spec(&self) -> Seq<char> {
        self.version@
    }

    /// The detected features.
    pub closed spec fn features_spec(&self) -> WindowsFeatures {
        self.features
    }

    /// The detected edition.
    pub fn edition(&self) -> (e: WindowsEdition)
        ensures
            e == self.edition_spec(),
    {
        self.edition
    }

    /// The detected features.
    pub fn features(&self) -> (f: &WindowsFeatures)
        ensures
            *f == self.features_spec(),
    {
        &self.features
    }

    /// The build number.
    pub fn build_number(&self) -> (n: u32)
        ensures
            n == self.build_spec(),
    {
        self.build_number
    }

    /// The version text.
    pub fn version(&self) -> (v: &str)
        ensures
            v@ == self.version_spec(),
    {
        self.version.as_str()
    }

    /// Whether the features satisfy `feature`.
    pub fn has_feature(&self, feature: impl Fn(&WindowsFeatures) -> bool) -> (b: bool)
        requires
            call_requires(feature, (&self.features_spec(),)),
        ensures
            call_ensures(feature, (&self.features_spec(),), b),
    {
        feature(&self.features)
    }

    /// Parse an edition string.
    pub fn parse_edition_string(s: &str) -> (e: WindowsEdition)
        ensures
            e == edition_of(s@),
    {
        let l = to_lower(s);
        if str_contains(&l, "home") {
            WindowsEdition::Home
        } else if str_contains(&l, "pro") && str_contains(&l, "education") {
            WindowsEdition::ProEducation
        } else if str_contains(&l, "pro") && str_contains(&l, "workstation") {
            WindowsEdition::ProForWorkstations
        } else if str_contains(&l, "pro") {
            WindowsEdition::Pro
        } else if str_contains(&l, "enterprise") {
            WindowsEdition::Enterprise
        } else if str_contains(&l, "education") {
            WindowsEdition::Education
        } else {
            WindowsEdition::Unknown
        }
    }

    /// The edition named by the registry values, read in order: `EditionID`,
    /// `ProductName` and `ProductType` under each of the three keys that may
    /// hold them (`None` where a value could not be read). The first value
    /// that names an edition decides.
    pub fn detect_edition(values: &Vec<Option<String>>) -> (e: WindowsEdition)
        ensures
            e == edition_from_values(opt_views(values@)),
    {
        let mut i: usize = values.len();
        let mut result = WindowsEdition::Unknown;
        assert(opt_views(values@).subrange(values@.len() as int, values@.len() as int)
            =~= Seq::<Option<Seq<char>>>::empty());
        while i > 0
            invariant
                i <= values@.len(),
                result == edition_from_values(opt_views(values@).subrange(i as int, values@.len() as int)),
            decreases i,
        {
            i -= 1;
            let ghost rest = opt_views(values@).subrange(i as int, values@.len() as int);
            assert(rest.drop_first() =~= opt_views(values@).subrange(i + 1, values@.len() as int));
            match &values[i] {
                Some(s) => {
                    let e = Self::parse_edition_string(s.as_str());
                    if e != WindowsEdition::Unknown {
                        result = e;
                    }
                },
                None => {},
            }
        }
        assert(opt_views(values@).subrange(0, values@.len() as int) =~= opt_views(values@));
        result
    }

    /// The build number from its registry text.
    pub fn get_build_number(build_str: Option<&str>) -> (r: Result<u32, EditionError>)
        ensures
            match build_str {
                None => r == Err::<u32, EditionError>(EditionError::BuildNumberUnreadable),
                Some(b) => match parse_unsigned(b@, u32::MAX as nat) {
                    None => r == Err::<u32, EditionError>(EditionError::BuildNumberInvalid),
                    Some(n) => r == Ok::<u32, EditionError>(n as u32),
                },
            },
    {
        match build_str {
            None => Err(EditionError::BuildNumberUnreadable),
            Some(b) => match parse_u32(b) {
                Some(n) => Ok(n),
                None => Err(EditionError::BuildNumberInvalid),
            },
        }
    }

    /// The version text: `DisplayVersion` when readable, `CurrentVersion`
    /// otherwise.
    pub fn get_version(display_version: Option<&str>, current_version: Option<&str>) -> (r: Result<String, EditionError>)
        ensures
            match display_version {
                Some(v) => r matches Ok(s) && s@ == v@,
                None => match current_version {
                    Some(v) => r matches Ok(s) && s@ == v@,
                    None => r matches Err(EditionError::VersionUnreadable),
                },
            },
    {
        match display_version {
            Some(v) => Ok(to_owned(v)),
            None => match current_version {
                Some(v) => Ok(to_owned(v)),
                None => Err(EditionError::VersionUnreadable),
            },
        }
    }

    /// WSL is available when its registry state is readable or `wsl.exe` is
    /// on the path.
    pub fn detect_wsl_availability(state_repository_readable: bool, wsl_exe_found: bool) -> (b: bool)
        ensures
            b == (state_repository_readable || wsl_exe_found),
    {
        state_repository_readable || wsl_exe_found
    }

    /// WSL2 is available when a default distribution is registered, or when
    /// `wsl.exe` is on the path and the build (when readable) is at least 18362.
    pub fn detect_wsl2_availability(default_distribution_readable: bool, wsl_exe_found: bool, build: Option<u32>) -> (b: bool)
        ensures
            b == (default_distribution_readable || (wsl_exe_found && (build matches Some(n) && n >= 18362))),
    {
        if default_distribution_readable {
            return true;
        }
        if wsl_exe_found {
            if let Some(n) = build {
                return n >= 18362;
            }
        }
        false
    }

    /// Docker Desktop is installed when `docker.exe` is on the path or one of
    /// its usual install paths exists.
    pub fn detect_docker_desktop(docker_exe_found: bool, install_paths_exist: &[bool]) -> (b: bool)
        ensures
            b == (docker_exe_found || exists|i: int| 0 <= i < install_paths_exist@.len() && install_paths_exist@[i]),
    {
        if docker_exe_found {
            return true;
        }
        any_true(install_paths_exist)
    }

    /// PowerShell 7 is installed when `pwsh.exe` is on the path or one of its
    /// usual install paths exists.
    pub fn detect_powershell_7(pwsh_exe_found: bool, install_paths_exist: &[bool]) -> (b: bool)
        ensures
            b == (pwsh_exe_found || exists|i: int| 0 <= i < install_paths_exist@.len() && install_paths_exist@[i]),
    {
        if pwsh_exe_found {
            return true;
        }
        any_true(install_paths_exist)
    }

    /// The features of an edition and build, with the probe results.
    pub fn detect_features(edition: WindowsEdition, build: u32, probes: FeatureProbes) -> (f: WindowsFeatures)
        ensures
            f == edition_features(edition, build, probes),
    {
        let mut features = WindowsFeatures {
            has_group_policy: false,
            has_hyper_v: false,
            has_bitlocker: false,
            has_device_encryption: false,
            has_remote_desktop: false,
            has_wsl: false,
            has_wsl2: false,
            has_docker_desktop: false,
            has_diskpart: true,
            has_power_shell_7: false,
            has_windows_sandbox: false,
            has_windows_defender_exploit_guard: false,
            has_windows_defender_application_control: false,
            has_windows_defender_network_inspection: false,
            has_windows_defender_tamper_protection: false,
        };
        match edition {
            WindowsEdition::Home => {
                features.has_device_encryption = build >= 1703;
            },
            WindowsEdition::Pro | WindowsEdition::Enterprise | WindowsEdition::Education
            | WindowsEdition::ProEducation | WindowsEdition::ProForWorkstations => {
                features.has_group_policy = true;
                features.has_hyper_v = true;
                features.has_bitlocker = true;
                features.has_device_encryption = true;
                features.has_remote_desktop = true;
                features.has_windows_sandbox = build >= 18305;
                features.has_windows_defender_exploit_guard = true;
                features.has_windows_defender_application_control = true;
            },
            WindowsEdition::Unknown => {},
        }
        features.has_wsl = probes.wsl;
        if features.has_wsl {
            features.has_wsl2 = probes.wsl2;
        }
        features.has_docker_desktop = probes.docker_desktop;
        features.has_power_shell_7 = probes.power_shell_7;
        if build >= 18362 {
            features.has_windows_defender_network_inspection = true;
            features.has_windows_defender_tamper_protection = true;
        }
        features
    }

    /// The compatibility report of the machine.
    pub fn get_compatibility_report(&self) -> (r: WindowsCompatibilityReport)
        ensures
            r.edition == self.edition_spec(),
            r.version@ == self.version_spec(),
            r.build_number == self.build_spec(),
            r.features == self.features_spec(),
            string_views(r.limitations@) == report_limitations(self.edition_spec(), self.features_spec()),
            string_views(r.recommendations@) == report_recommendations(self.edition_spec(), self.features_spec()),
    {
        let mut limitations: Vec<String> = Vec::new();
        let mut recommendations: Vec<String> = Vec::new();
        match self.edition {
            WindowsEdition::Home => {
                push_text(&mut limitations, "No Group Policy Editor");
                push_text(&mut limitations, "No Hyper-V virtualization");
                push_text(&mut limitations, "No BitLocker drive encryption");
                push_text(&mut limitations, "No Remote Desktop host");
                push_text(&mut limitations, "No Windows Sandbox");
                push_text(&mut limitations, "Limited Windows Defender features");
                push_text(&mut recommendations, "Use Device Encryption instead of BitLocker");
                push_text(&mut recommendations, "Use third-party virtualization software");
                push_text(&mut recommendations, "Use third-party remote desktop solutions");
            },
            WindowsEdition::Pro => {
                push_text(&mut recommendations, "Enable Hyper-V for WSL2 support");
                push_text(&mut recommendations, "Consider Windows Sandbox for testing");
            },
            _ => {},
        }
        if !self.features.has_wsl {
            push_text(&mut limitations, "WSL not available");
            push_text(&mut recommendations, "Install WSL from Microsoft Store or enable Windows feature");
        } else if !self.features.has_wsl2 {
            push_text(&mut limitations, "WSL2 not available");
            push_text(&mut recommendations, "Update to Windows 10 build 18362 or later");
        }
        if !self.features.has_docker_desktop {
            push_text(&mut recommendations, "Install Docker Desktop for container support");
        }
        assert(string_views(limitations@) =~= report_limitations(self.edition, self.features));
        assert(string_views(recommendations@) =~= report_recommendations(self.edition, self.features));
        WindowsCompatibilityReport {
            edition: self.edition,
            version: to_owned(self.version.as_str()),
            build_number: self.build_number,
            features: self.features,
            limitations,
            recommendations,
        }
    }
}

/// Whether any flag is set.
pub fn any_true(flags: &[bool]) -> (b: bool)
    ensures
        b == exists|i: int| 0 <= i < flags@.len() && flags@[i],
{
    let mut i: usize = 0;
    while i < flags.len()
        invariant
            i <= flags@.len(),
            forall|j: int| 0 <= j < i ==> !flags@[j],
        decreases flags@.len() - i,
    {
        if flags[i] {
            return true;
        }
        i += 1;
    }
    false
}

/// Every edition other than Home and Unknown has the full set of
/// edition-dependent features; Home never has Group Policy, Hyper-V,
/// BitLocker or Remote Desktop.
pub proof fn law_home_lacks_pro_features(build: u32, probes: FeatureProbes)
    ensures
        ({
            let f = edition_features(WindowsEdition::Home, build, probes);
            !f.has_group_policy && !f.has_hyper_v && !f.has_bitlocker && !f.has_remote_desktop
                && !f.has_windows_sandbox
        }),
        forall|e: WindowsEdition|
            e != WindowsEdition::Home && e != WindowsEdition::Unknown ==> ({
                let f = #[trigger] edition_features(e, build, probes);
                f.has_group_policy && f.has_hyper_v && f.has_bitlocker && f.has_remote_desktop
            }),
{
}

/// WSL2 is never reported without WSL.
pub proof fn law_wsl2_implies_wsl(e: WindowsEdition, build: u32, probes: FeatureProbes)
    ensures
        edition_features(e, build, probes).has_wsl2 ==> edition_features(e, build, probes).has_wsl,
{
}


/// What a compatibility report says: a Home edition's limitations start
/// with the six Home limitations; without WSL the report says WSL is not
/// available, with WSL but without WSL2 it says WSL2 is not available; and
/// it recommends Docker Desktop exactly when Docker Desktop is missing.
pub proof fn law_compatibility_report(edition: WindowsEdition, f: WindowsFeatures)
    ensures
        edition == WindowsEdition::Home ==> report_limitations(edition, f).subrange(0, 6) == seq![
            "No Group Policy Editor"@,
            "No Hyper-V virtualization"@,
            "No BitLocker drive encryption"@,
            "No Remote Desktop host"@,
            "No Windows Sandbox"@,
            "Limited Windows Defender features"@,
        ],
        !f.has_wsl ==> report_limitations(edition, f).contains("WSL not available"@),
        f.has_wsl && !f.has_wsl2 ==> report_limitations(edition, f).contains("WSL2 not available"@),
        !f.has_docker_desktop <==> report_recommendations(edition, f).contains(
            "Install Docker Desktop for container support"@,
        ),
{
    reveal_strlit("No Group Policy Editor");
    reveal_strlit("No Hyper-V virtualization");
    reveal_strlit("No BitLocker drive encryption");
    reveal_strlit("No Remote Desktop host");
    reveal_strlit("No Windows Sandbox");
    reveal_strlit("Limited Windows Defender features");
    reveal_strlit("WSL not available");
    reveal_strlit("WSL2 not available");
    reveal_strlit("Use Device Encryption instead of BitLocker");
    reveal_strlit("Use third-party virtualization software");
    reveal_strlit("Use third-party remote desktop solutions");
    reveal_strlit("Enable Hyper-V for WSL2 support");
    reveal_strlit("Consider Windows Sandbox for testing");
    reveal_strlit("Install WSL from Microsoft Store or enable Windows feature");
    reveal_strlit("Update to Windows 10 build 18362 or later");
    reveal_strlit("Install Docker Desktop for container support");
    let lim = report_limitations(edition, f);
    let rec = report_recommendations(edition, f);
    if edition == WindowsEdition::Home {
        assert(lim.subrange(0, 6) =~= seq![
            "No Group Policy Editor"@,
            "No Hyper-V virtualization"@,
            "No BitLocker drive encryption"@,
            "No Remote Desktop host"@,
            "No Windows Sandbox"@,
            "Limited Windows Defender features"@,
        ]);
    }
    if !f.has_wsl {
        assert(lim[lim.len() - 1] == "WSL not available"@);
    } else if !f.has_wsl2 {
        assert(lim[lim.len() - 1] == "WSL2 not available"@);
    }
    let docker = "Install Docker Desktop for container support"@;
    if !f.has_docker_desktop {
        assert(rec[rec.len() - 1] == docker);
    } else {
        assert forall|k: int| 0 <= k < rec.len() implies rec[k] != docker by {
            assert(rec[k].len() != docker.len() || rec[k][0] != docker[0] || rec[k][8] != docker[8]);
        }
    }
}

} // verus!
