//! Compatibility rules for Windows Home editions.
use vstd::prelude::*;
use crate::text::{
    chars_of, concat, contains_seq, has_prefix, lowercase, parse_u32, parse_unsigned,
    some_text, str_contains, str_eq, str_starts_with, to_lower, to_owned,
};

verus! {

/// Elevation requirement of an operation.
#[derive(Debug, Clone, Copy, PartialEq, Eq, Structural)]
pub enum ElevationRequirement {
    /// No elevation needed.
    NotRequired,
    /// Elevation needed on all editions.
    Always,
    /// Elevation needed only on Home edition.
    HomeOnly,
    /// Not available on Home edition.
    HomeNotSupported,
}

/// Compatibility information about an operation.
#[derive(Debug, Clone)]
pub struct FeatureInfo {
    pub name: String,
    pub available: bool,
    pub elevation: ElevationRequirement,
    pub unavailable_reason: Option<String>,
    pub workaround: Option<String>,
}

/// Why the edition of the machine could not be established.
#[derive(Debug, Clone, Copy, PartialEq, Eq, Structural)]
pub enum CompatError {
    /// The build number could not be read from the registry.
    BuildNumberUnreadable,
    /// The build number read from the registry is not a number.
    BuildNumberInvalid,
}

/// Home edition compatibility rules for one machine.
#[derive(Debug, Clone, Copy)]
pub struct HomeEditionCompat {
    is_home_edition: bool,
    build_number: u32,
}

/// Method used to compact a WSL2 disk image.
#[derive(Debug, Clone, Copy, PartialEq, Eq, Structural)]
pub enum WslCompactMethod {
    WslManage,
    Wslconfig,
    Diskpart,
    Manual,
}

/// Result of a WSL2 disk image compaction.
#[derive(Debug, Clone)]
pub struct WslCompactResult {
    pub method: WslCompactMethod,
    pub success: bool,
    pub message: String,
}

/// The next thing to do while compacting a disk image.
#[derive(Debug, Clone)]
pub enum CompactStep {
    /// Try this method.
    Try(WslCompactMethod),
    /// Stop: this is the result.
    Finish(WslCompactResult),
}

/// Whether the edition strings read from the registry name a Home edition:
/// `EditionID` decides when it could be read, `ProductName` otherwise.
pub open spec fn home_edition_from(edition_id: Option<Seq<char>>, product_name: Option<Seq<char>>) -> bool {
    match edition_id {
        Some(e) => contains_seq(lowercase(e), "home"@),
        None => match product_name {
            Some(p) => contains_seq(lowercase(p), "home"@),
            None => false,
        },
    }
}

/// The elevation that an operation needs.
pub open spec fn elevation_for(home: bool, op: Seq<char>) -> ElevationRequirement {
    if op == "user_temp_cleanup"@ || op == "browser_cache_cleanup"@ || op == "recycle_bin_empty"@ {
        ElevationRequirement::NotRequired
    } else if op == "windows_update_cleanup"@ || op == "system_file_cleanup"@ || op
        == "registry_cleanup"@ {
        ElevationRequirement::Always
    } else if home && (op == "system_temp_cleanup"@ || op == "prefetch_cleanup"@ || op
        == "service_management"@) {
        ElevationRequirement::HomeOnly
    } else if home && op == "group_policy_cleanup"@ {
        ElevationRequirement::HomeNotSupported
    } else {
        ElevationRequirement::NotRequired
    }
}

/// The package family of a WSL distribution, by its lowercase name.
pub open spec fn wsl_package_name(d: Seq<char>) -> Seq<char> {
    let l = lowercase(d);
    if l == "ubuntu"@ {
        "CanonicalGroupLimited.UbuntuonWindows"@
    } else if l == "ubuntu-18.04"@ {
        "CanonicalGroupLimited.Ubuntu18.04onWindows"@
    } else if l == "ubuntu-20.04"@ {
        "CanonicalGroupLimited.Ubuntu20.04onWindows"@
    } else if l == "ubuntu-22.04"@ {
        "CanonicalGroupLimited.Ubuntu22.04onWindows"@
    } else if l == "debian"@ {
        "TheDebianProject.DebianGNULinux"@
    } else if l == "kali-linux"@ {
        "KaliLinux.KaliLinux"@
    } else if l == "opensuse"@ {
        "SUSE.openSUSELeap"@
    } else {
        "Unknown."@ + d + ".onWindows"@
    }
}

/// The manual compaction instructions for a distribution.
pub open spec fn compaction_instructions(d: Seq<char>) -> Seq<char> {
    r#"Manual WSL2 VHDX Compaction Instructions for "#@ + d + r#"

Since automatic compaction failed, please follow these steps:

1. Open Command Prompt as Administrator
2. Run: wsl --shutdown
3. Run: diskpart
4. In diskpart, run:
   select vdisk file="<VHDX_PATH>"
   attach vdisk readonly
   compact vdisk
   detach vdisk
   exit

5. Replace <VHDX_PATH> with your distribution's VHDX file, typically:
   %USERPROFILE%\AppData\Local\Packages\<PACKAGE_NAME>\LocalState\ext4.vhdx

6. Restart WSL with: wsl

Note: On Windows Home edition, diskpart is the recommended method for VHDX compaction."#@
}

/// Device Encryption availability from the registry values: only Home
/// editions report it; `DeviceEncryption` decides when readable, otherwise a
/// TPM spec version starting with `2.`.
pub open spec fn device_encryption_from(
    home: bool,
    device_encryption: Option<Seq<char>>,
    tpm_spec: Option<Seq<char>>,
) -> bool {
    if !home {
        false
    } else {
        match device_encryption {
            Some(s) => s == "1"@,
            None => match tpm_spec {
                Some(t) => has_prefix(t, "2."@),
                None => false,
            },
        }
    }
}

impl HomeEditionCompat {
    /// The edition of the machine from its registry values: `EditionID`,
    /// `ProductName` and `CurrentBuildNumber` of
    /// `SOFTWARE\Microsoft\Windows NT\CurrentVersion` (`None` where a value
    /// could not be read).
    pub fn new(
        edition_id: Option<&str>,
        product_name: Option<&str>,
        build_number: Option<&str>,
    ) -> (r: Result<Self, CompatError>)
        ensures
            match build_number {
                None => r == Err::<Self, CompatError>(CompatError::BuildNumberUnreadable),
                Some(b) => match parse_unsigned(b@, u32::MAX as nat) {
                    None => r == Err::<Self, CompatError>(CompatError::BuildNumberInvalid),
                    Some(n) => r matches Ok(c) && c.build() == n && c.is_home()
                        == home_edition_from(
                        match edition_id { Some(e) => Some(e@), None => None },
                        match product_name { Some(p) => Some(p@), None => None },
                    ),
                },
            },
    {
        let is_home_edition = Self::detect_home_edition(edition_id, product_name);
        match Self::get_build_number(build_number) {
            Ok(n) => Ok(HomeEditionCompat { is_home_edition, build_number: n }),
            Err(e) => Err(e),
        }
    }

    /// A compatibility manager for a known edition and build.
    pub fn from_parts(is_home_edition: bool, build_number: u32) -> (c: Self)
        ensures
            c.is_home() == is_home_edition,
            c.build() == build_number,
    {
        HomeEditionCompat { is_home_edition, build_number }
    }

    /// Whether the machine runs a Home edition.
    pub closed spec fn is_home(self) -> bool {
        self.is_home_edition
    }

    /// The build number of the machine.
    pub closed spec fn build(self) -> u32 {
        self.build_number
    }

    /// Whether the edition strings name a Home edition.
    pub fn detect_home_edition(edition_id: Option<&str>, product_name: Option<&str>) -> (b: bool)
        ensures
            b == home_edition_from(
                match edition_id { Some(e) => Some(e@), None => None },
                match product_name { Some(p) => Some(p@), None => None },
            ),
    {
        match edition_id {
            Some(e) => str_contains(&to_lower(e), "home"),
            None => match product_name {
                Some(p) => str_contains(&to_lower(p), "home"),
                None => false,
            },
        }
    }

    /// The build number from its registry text.
    pub fn get_build_number(build_str: Option<&str>) -> (r: Result<u32, CompatError>)
        ensures
            match build_str {
                None => r == Err::<u32, CompatError>(CompatError::BuildNumberUnreadable),
                Some(b) => match parse_unsigned(b@, u32::MAX as nat) {
                    None => r == Err::<u32, CompatError>(CompatError::BuildNumberInvalid),
                    Some(n) => r == Ok::<u32, CompatError>(n as u32),
                },
            },
    {
        match build_str {
            None => Err(CompatError::BuildNumberUnreadable),
            Some(b) => match parse_u32(b) {
                Some(n) => Ok(n),
                None => Err(CompatError::BuildNumberInvalid),
            },
        }
    }

    /// Whether the machine runs a Home edition.
    pub fn is_home_edition(&self) -> (b: bool)
        ensures
            b == self.is_home(),
    {
        self.is_home_edition
    }

    /// The build number.
    pub fn build_number(&self) -> (n: u32)
        ensures
            n == self.build(),
    {
        self.build_number
    }

    /// The elevation an operation needs on this machine.
    pub fn get_elevation_requirement(&self, operation: &str) -> (e: ElevationRequirement)
        ensures
            e == elevation_for(self.is_home(), operation@),
    {
        if str_eq(operation, "user_temp_cleanup") || str_eq(operation, "browser_cache_cleanup")
            || str_eq(operation, "recycle_bin_empty") {
            ElevationRequirement::NotRequired
        } else if str_eq(operation, "windows_update_cleanup") || str_eq(
            operation,
            "system_file_cleanup",
        ) || str_eq(operation, "registry_cleanup") {
            ElevationRequirement::Always
        } else if self.is_home_edition && (str_eq(operation, "system_temp_cleanup") || str_eq(
            operation,
            "prefetch_cleanup",
        ) || str_eq(operation, "service_management")) {
            ElevationRequirement::HomeOnly
        } else if self.is_home_edition && str_eq(operation, "group_policy_cleanup") {
            ElevationRequirement::HomeNotSupported
        } else {
            ElevationRequirement::NotRequired
        }
    }

    /// Whether an operation is supported on this edition.
    pub fn is_operation_supported(&self, operation: &str) -> (b: bool)
        ensures
            b == (elevation_for(self.is_home(), operation@)
                != ElevationRequirement::HomeNotSupported),
    {
        !matches!(self.get_elevation_requirement(operation), ElevationRequirement::HomeNotSupported)
    }

    /// Compatibility information for an operation.
    pub fn get_feature_info(&self, operation: &str) -> (f: FeatureInfo)
        ensures
            f.name@ == operation@,
            f.elevation == elevation_for(self.is_home(), operation@),
            self.is_home() && operation@ == "group_policy_cleanup"@ ==> !f.available
                && some_text(
                f.unavailable_reason,
                "Group Policy Editor is not available on Windows Home edition"@,
            ) && some_text(f.workaround, "Use registry edits or third-party tools like Policy Plus"@),
            self.is_home() && operation@ == "windows_update_cleanup"@ ==> f.available
                && f.unavailable_reason is None && some_text(
                f.workaround,
                "Requires administrator privileges"@,
            ),
            self.is_home() && operation@ == "service_management"@ ==> f.available
                && f.unavailable_reason is None && some_text(
                f.workaround,
                "Limited service management on Home edition"@,
            ),
            !(self.is_home() && (operation@ == "group_policy_cleanup"@ || operation@
                == "windows_update_cleanup"@ || operation@ == "service_management"@))
                ==> f.available && f.unavailable_reason is None && f.workaround is None,
    {
        let elevation = self.get_elevation_requirement(operation);
        proof {
            reveal_strlit("group_policy_cleanup");
            reveal_strlit("windows_update_cleanup");
            reveal_strlit("service_management");
            assert("windows_update_cleanup"@.len() == 22);
            assert("group_policy_cleanup"@.len() == 20);
            assert("service_management"@.len() == 18);
        }
        let (available, unavailable_reason, workaround) = if self.is_home_edition && str_eq(
            operation,
            "group_policy_cleanup",
        ) {
            (
                false,
                Some(to_owned("Group Policy Editor is not available on Windows Home edition")),
                Some(to_owned("Use registry edits or third-party tools like Policy Plus")),
            )
        } else if self.is_home_edition && str_eq(operation, "windows_update_cleanup") {
            (true, None, Some(to_owned("Requires administrator privileges")))
        } else if self.is_home_edition && str_eq(operation, "service_management") {
            (true, None, Some(to_owned("Limited service management on Home edition")))
        } else {
            (true, None, None)
        };
        FeatureInfo {
            name: to_owned(operation),
            available,
            elevation,
            unavailable_reason,
            workaround,
        }
    }

    /// The package family name of a WSL distribution.
    pub fn get_wsl_package_name(&self, distribution: &str) -> (s: String)
        ensures
            s@ == wsl_package_name(distribution@),
    {
        let l = to_lower(distribution);
        if str_eq(&l, "ubuntu") {
            to_owned("CanonicalGroupLimited.UbuntuonWindows")
        } else if str_eq(&l, "ubuntu-18.04") {
            to_owned("CanonicalGroupLimited.Ubuntu18.04onWindows")
        } else if str_eq(&l, "ubuntu-20.04") {
            to_owned("CanonicalGroupLimited.Ubuntu20.04onWindows")
        } else if str_eq(&l, "ubuntu-22.04") {
            to_owned("CanonicalGroupLimited.Ubuntu22.04onWindows")
        } else if str_eq(&l, "debian") {
            to_owned("TheDebianProject.DebianGNULinux")
        } else if str_eq(&l, "kali-linux") {
            to_owned("KaliLinux.KaliLinux")
        } else if str_eq(&l, "opensuse") {
            to_owned("SUSE.openSUSELeap")
        } else {
            let mut s = concat("Unknown.", distribution);
            crate::text::push_str(&mut s, ".onWindows");
            s
        }
    }

    /// Instructions for compacting a distribution's disk image by hand.
    pub fn get_manual_compaction_instructions(&self, distribution: &str) -> (s: String)
        ensures
            s@ == compaction_instructions(distribution@),
    {
        let mut s = concat(r#"Manual WSL2 VHDX Compaction Instructions for "#, distribution);
        crate::text::push_str(&mut s, r#"

Since automatic compaction failed, please follow these steps:

1. Open Command Prompt as Administrator
2. Run: wsl --shutdown
3. Run: diskpart
4. In diskpart, run:
   select vdisk file="<VHDX_PATH>"
   attach vdisk readonly
   compact vdisk
   detach vdisk
   exit

5. Replace <VHDX_PATH> with your distribution's VHDX file, typically:
   %USERPROFILE%\AppData\Local\Packages\<PACKAGE_NAME>\LocalState\ext4.vhdx

6. Restart WSL with: wsl

Note: On Windows Home edition, diskpart is the recommended method for VHDX compaction."#);
        s
    }

    /// Whether Device Encryption is available, from the registry values
    /// `DeviceEncryption` of `SYSTEM\CurrentControlSet\Control\BitLocker` and
    /// `SpecVersion` of `SYSTEM\CurrentControlSet\Services\TPM\WMI\AdminInfo`.
    pub fn has_device_encryption(&self, device_encryption: Option<&str>, tpm_spec: Option<&str>) -> (b: bool)
        ensures
            b == device_encryption_from(
                self.is_home(),
                match device_encryption { Some(s) => Some(s@), None => None },
                match tpm_spec { Some(s) => Some(s@), None => None },
            ),
    {
        if !self.is_home_edition {
            return false;
        }
        match device_encryption {
            Some(s) => str_eq(s, "1"),
            None => match tpm_spec {
                Some(t) => str_starts_with(t, "2."),
                None => false,
            },
        }
    }

    /// Limitations of Home editions.
    pub fn get_limitations(&self) -> (r: Vec<String>)
        ensures
            !self.is_home() ==> r@.len() == 0,
            self.is_home() ==> r@.len() == (if self.build() < 21364 { 6int } else { 5int }),
            self.is_home() ==> r@[0]@ == "No Group Policy Editor"@ && r@[1]@
                == "No Hyper-V virtualization"@ && r@[2]@ == "No BitLocker drive encryption"@
                && r@[3]@ == "No Remote Desktop host"@ && r@[4]@ == "No Windows Sandbox"@,
            self.is_home() && self.build() < 21364 ==> r@[5]@ == "No wsl --manage command"@,
    {
        let mut v: Vec<String> = Vec::new();
        if self.is_home_edition {
            v.push(to_owned("No Group Policy Editor"));
            v.push(to_owned("No Hyper-V virtualization"));
            v.push(to_owned("No BitLocker drive encryption"));
            v.push(to_owned("No Remote Desktop host"));
            v.push(to_owned("No Windows Sandbox"));
            if self.build_number < 21364 {
                v.push(to_owned("No wsl --manage command"));
            }
        }
        v
    }

    /// Workarounds for the limitations of Home editions.
    pub fn get_workarounds(&self) -> (r: Vec<String>)
        ensures
            !self.is_home() ==> r@.len() == 0,
            self.is_home() ==> r@.len() == (if self.build() < 21364 { 6int } else { 5int }),
            self.is_home() ==> r@[0]@ == "Use diskpart for VHD management instead of Hyper-V"@
                && r@[1]@ == "Use Device Encryption instead of BitLocker"@ && r@[2]@
                == "Use wslconfig.exe for basic WSL management"@ && r@[3]@
                == "Edit registry directly instead of Group Policy"@ && r@[4]@
                == "Use third-party remote desktop solutions"@,
            self.is_home() && self.build() < 21364 ==> r@[5]@
                == "Use manual diskpart scripts for WSL2 compaction"@,
    {
        let mut v: Vec<String> = Vec::new();
        if self.is_home_edition {
            v.push(to_owned("Use diskpart for VHD management instead of Hyper-V"));
            v.push(to_owned("Use Device Encryption instead of BitLocker"));
            v.push(to_owned("Use wslconfig.exe for basic WSL management"));
            v.push(to_owned("Edit registry directly instead of Group Policy"));
            v.push(to_owned("Use third-party remote desktop solutions"));
            if self.build_number < 21364 {
                v.push(to_owned("Use manual diskpart scripts for WSL2 compaction"));
            }
        }
        v
    }

    /// The outcome of a compaction attempt, given the first method that
    /// succeeded (`wsl --manage`, then `wslconfig.exe`, then diskpart), or
    /// none.
    pub fn compaction_result(succeeded: Option<WslCompactMethod>) -> (r: WslCompactResult)
        ensures
            match succeeded {
                Some(WslCompactMethod::WslManage) => r.method == WslCompactMethod::WslManage
                    && r.success && r.message@ == "Successfully compacted using wsl --manage"@,
                Some(WslCompactMethod::Wslconfig) => r.method == WslCompactMethod::Wslconfig
                    && r.success && r.message@ == "Successfully compacted using wslconfig.exe"@,
                Some(WslCompactMethod::Diskpart) => r.method == WslCompactMethod::Diskpart
                    && r.success && r.message@ == "Successfully compacted using diskpart"@,
                _ => r.method == WslCompactMethod::Manual && !r.success && r.message@
                    == "Automatic compaction failed. See manual instructions."@,
            },
    {
        match succeeded {
            Some(WslCompactMethod::WslManage) => WslCompactResult {
                method: WslCompactMethod::WslManage,
                success: true,
                message: to_owned("Successfully compacted using wsl --manage"),
            },
            Some(WslCompactMethod::Wslconfig) => WslCompactResult {
                method: WslCompactMethod::Wslconfig,
                success: true,
                message: to_owned("Successfully compacted using wslconfig.exe"),
            },
            Some(WslCompactMethod::Diskpart) => WslCompactResult {
                method: WslCompactMethod::Diskpart,
                success: true,
                message: to_owned("Successfully compacted using diskpart"),
            },
            _ => WslCompactResult {
                method: WslCompactMethod::Manual,
                success: false,
                message: to_owned("Automatic compaction failed. See manual instructions."),
            },
        }
    }

    /// The compaction methods in the order they are tried: `wsl --manage`,
    /// then `wslconfig.exe`, then diskpart.
    pub open spec fn first_success(manage: bool, wslconfig: bool, diskpart: bool) -> Option<WslCompactMethod> {
        if manage {
            Some(WslCompactMethod::WslManage)
        } else if wslconfig {
            Some(WslCompactMethod::Wslconfig)
        } else if diskpart {
            Some(WslCompactMethod::Diskpart)
        } else {
            None
        }
    }

    /// What to do next while compacting: `last` is the method tried last
    /// and whether it succeeded (none before the first attempt). The first
    /// method that succeeds gives the result; after a failure the next one
    /// is tried; when diskpart fails too, the result is the manual one.
    pub fn compaction_step(last: Option<(WslCompactMethod, bool)>) -> (s: CompactStep)
        ensures
            match last {
                None => s == CompactStep::Try(WslCompactMethod::WslManage),
                Some((WslCompactMethod::WslManage, false)) => s == CompactStep::Try(WslCompactMethod::Wslconfig),
                Some((WslCompactMethod::Wslconfig, false)) => s == CompactStep::Try(WslCompactMethod::Diskpart),
                Some((WslCompactMethod::Manual, _)) => s matches CompactStep::Finish(r) && r.method
                    == WslCompactMethod::Manual && !r.success && r.message@
                    == "Automatic compaction failed. See manual instructions."@,
                Some((m, true)) => s matches CompactStep::Finish(r) && r.method == m && r.success,
                Some((WslCompactMethod::Diskpart, false)) => s matches CompactStep::Finish(r) && r.method
                    == WslCompactMethod::Manual && !r.success && r.message@
                    == "Automatic compaction failed. See manual instructions."@,
            },
    {
        match last {
            None => CompactStep::Try(WslCompactMethod::WslManage),
            Some((WslCompactMethod::WslManage, false)) => CompactStep::Try(WslCompactMethod::Wslconfig),
            Some((WslCompactMethod::Wslconfig, false)) => CompactStep::Try(WslCompactMethod::Diskpart),
            Some((WslCompactMethod::Manual, _)) => CompactStep::Finish(Self::compaction_result(None)),
            Some((m, true)) => CompactStep::Finish(Self::compaction_result(Some(m))),
            Some((WslCompactMethod::Diskpart, false)) => CompactStep::Finish(Self::compaction_result(None)),
        }
    }

    /// The result of a compaction from whether each method, tried in order,
    /// succeeded (a method after the first success is not tried, so what is
    /// given for it does not matter): the first method that succeeded, or
    /// the manual instructions when all three failed.
    pub fn compaction_outcome(manage: bool, wslconfig: bool, diskpart: bool) -> (r: WslCompactResult)
        ensures
            r.success <==> r.method != WslCompactMethod::Manual,
            r.success <==> Self::first_success(manage, wslconfig, diskpart) is Some,
            Self::first_success(manage, wslconfig, diskpart) matches Some(m) ==> r.method == m,
            Self::first_success(manage, wslconfig, diskpart) is None ==> r.method == WslCompactMethod::Manual
                && r.message@ == "Automatic compaction failed. See manual instructions."@,
    {
        let mut last: Option<(WslCompactMethod, bool)> = None;
        let attempts = [manage, wslconfig, diskpart];
        let mut k: usize = 0;
        loop
            invariant
                k <= 3,
                attempts@ == seq![manage, wslconfig, diskpart],
                k == 0 ==> last is None,
                k == 1 ==> last == Some((WslCompactMethod::WslManage, manage)),
                k == 2 ==> !manage && last == Some((WslCompactMethod::Wslconfig, wslconfig)),
                k == 3 ==> !manage && !wslconfig && last == Some((WslCompactMethod::Diskpart, diskpart)),
            decreases 3 - k,
        {
            match Self::compaction_step(last) {
                CompactStep::Finish(r) => {
                    return r;
                },
                CompactStep::Try(m) => {
                    last = Some((m, attempts[k]));
                    k += 1;
                },
            }
        }
    }

    /// The diskpart script that compacts the disk image at `vhdx_path`.
    pub fn diskpart_script(vhdx_path: &str) -> (s: String)
        ensures
            s@ == "select vdisk file=\""@ + vhdx_path@
                + "\"\nattach vdisk readonly\ncompact vdisk\ndetach vdisk\nexit"@,
    {
        let mut s = concat("select vdisk file=\"", vhdx_path);
        crate::text::push_str(&mut s, "\"\nattach vdisk readonly\ncompact vdisk\ndetach vdisk\nexit");
        s
    }

    /// The registry key of a WSL distribution.
    pub fn lxss_key(distribution: &str) -> (s: String)
        ensures
            s@ == r"SOFTWARE\Microsoft\Windows\CurrentVersion\Lxss\"@ + distribution@,
    {
        concat(r"SOFTWARE\Microsoft\Windows\CurrentVersion\Lxss\", distribution)
    }

    /// The default places of a distribution's disk image under the user
    /// profile, in the order in which they are tried.
    pub fn vhdx_candidate_paths(&self, user_profile: &str, distribution: &str) -> (r: Vec<String>)
        ensures
            r@.len() == 2,
            r@[0]@ == user_profile@ + r"\AppData\Local\Packages\"@ + wsl_package_name(
                distribution@,
            ) + r"\LocalState\ext4.vhdx"@,
            r@[1]@ == user_profile@ + r"\AppData\Local\WSL\"@ + distribution@
                + r"\ext4.vhdx"@,
    {
        let mut a = concat(user_profile, r"\AppData\Local\Packages\");
        let pkg = self.get_wsl_package_name(distribution);
        crate::text::push_str(&mut a, &pkg);
        crate::text::push_str(&mut a, r"\LocalState\ext4.vhdx");
        let mut b = concat(user_profile, r"\AppData\Local\WSL\");
        crate::text::push_str(&mut b, distribution);
        crate::text::push_str(&mut b, r"\ext4.vhdx");
        let mut v: Vec<String> = Vec::new();
        v.push(a);
        v.push(b);
        v
    }
}

/// An operation is unsupported exactly on Home editions and exactly for
/// Group Policy cleanup; everything else is supported.
pub proof fn law_only_group_policy_unsupported(c: HomeEditionCompat, op: Seq<char>)
    ensures
        (elevation_for(c.is_home(), op) == ElevationRequirement::HomeNotSupported) <==> (c.is_home()
            && op == "group_policy_cleanup"@),
{
    reveal_strlit("group_policy_cleanup");
    reveal_strlit("user_temp_cleanup");
    reveal_strlit("browser_cache_cleanup");
    reveal_strlit("recycle_bin_empty");
    reveal_strlit("windows_update_cleanup");
    reveal_strlit("system_file_cleanup");
    reveal_strlit("registry_cleanup");
    reveal_strlit("system_temp_cleanup");
    reveal_strlit("prefetch_cleanup");
    reveal_strlit("service_management");
    if c.is_home() && op == "group_policy_cleanup"@ {
        assert(op.len() == 20);
    }
}

/// On editions other than Home, no operation needs elevation that depends
/// on the edition.
pub proof fn law_non_home_needs_no_home_elevation(op: Seq<char>)
    ensures
        elevation_for(false, op) == ElevationRequirement::NotRequired || elevation_for(false, op)
            == ElevationRequirement::Always,
{
}

} // verus!
