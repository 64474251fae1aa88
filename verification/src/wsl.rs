//! Windows Subsystem for Linux: whether it is there, and which
//! distributions are installed.
//!
//! The registry, the file system and the `wsl` command are probed by the
//! caller; what was found comes in as a [`WslProbes`] value and the decisions
//! made on it are verified here.
use vstd::prelude::*;
use crate::path::{join_child, join_path};
use crate::text::{
    chars_of, contains_seq, lines_chars, lines_of, parse_u32, parse_unsigned, str_contains,
    str_eq, string_of, words, words_chars,
};
use crate::windows_edition::any_true;

verus! {

/// WSL version of a distribution.
#[derive(Debug, Clone, Copy, PartialEq, Eq, Structural)]
pub enum WslVersion {
    Wsl1,
    Wsl2,
    Unknown,
}

/// State of a distribution.
#[derive(Debug, Clone, Copy, PartialEq, Eq, Structural)]
pub enum WslState {
    Running,
    Stopped,
    Installing,
    Uninstalling,
    Unknown,
}

/// An installed WSL distribution.
#[derive(Debug, Clone)]
pub struct WslDistribution {
    pub name: String,
    pub version: WslVersion,
    pub state: WslState,
    pub default: bool,
    pub wsl_path: Option<String>,
    pub vhdx_path: Option<String>,
    pub filesystem_path: Option<String>,
}

/// A distribution as plain values.
pub struct DistributionView {
    pub name: Seq<char>,
    pub version: WslVersion,
    pub state: WslState,
    pub default: bool,
    pub wsl_path: Option<Seq<char>>,
    pub vhdx_path: Option<Seq<char>>,
    pub filesystem_path: Option<Seq<char>>,
}

/// The text of an optional string.
pub open spec fn opt_text(o: Option<String>) -> Option<Seq<char>> {
    match o {
        Some(s) => Some(s@),
        None => None,
    }
}

impl View for WslDistribution {
    type V = DistributionView;

    open spec fn view(&self) -> DistributionView {
        DistributionView {
            name: self.name@,
            version: self.version,
            state: self.state,
            default: self.default,
            wsl_path: opt_text(self.wsl_path),
            vhdx_path: opt_text(self.vhdx_path),
            filesystem_path: opt_text(self.filesystem_path),
        }
    }
}

/// What the registry holds under `Lxss\<name>` for one distribution name.
#[derive(Debug, Clone)]
pub struct RegistryDistribution {
    /// The distribution name looked up.
    pub name: String,
    /// The `DistributionName` value could be read.
    pub registered: bool,
    /// The `State` value, when it could be read.
    pub state: Option<String>,
    /// The `Version` value, when it could be read.
    pub version: Option<String>,
    /// The `BasePath` value, when it could be read.
    pub base_path: Option<String>,
    /// The `VhdxFilePath` value, when it could be read.
    pub vhdx_file_path: Option<String>,
}

/// What probing the machine for WSL found.
#[derive(Debug, Clone)]
pub struct WslProbes {
    /// `wsl.exe` is on the `PATH`.
    pub wsl_exe_in_path: bool,
    /// For each registry key that may list the WSL package family, whether
    /// its `PackageFamilyList` value could be read.
    pub package_family_lists: Vec<bool>,
    /// The `InstallState` of the WSL optional-feature package, when readable.
    pub install_state: Option<String>,
    /// The `Lxss` key's `DefaultDistribution` value could be read.
    pub lxss_default_distribution: bool,
    /// For each distribution key tried, whether its `DistributionName` value
    /// could be read.
    pub lxss_distribution_keys: Vec<bool>,
    /// For each WSL system file, whether it exists.
    pub wsl_files: Vec<bool>,
    /// The `Lxss` key's `KernelFilePath` value, when readable.
    pub kernel_file_path: Option<String>,
    /// For each WSL2 kernel file, whether it exists.
    pub kernel_files: Vec<bool>,
    /// The output of `wsl --status`, when it could be run.
    pub status_output: Option<String>,
    /// The `CurrentBuildNumber` registry value, when readable.
    pub build_number: Option<String>,
    /// `wsl --manage --help` ran and succeeded.
    pub manage_help_succeeded: bool,
    /// The registry entries of the common distribution names, in the order
    /// of [`common_distribution_names`].
    pub registry_distributions: Vec<RegistryDistribution>,
    /// The output of `wsl -l -v`, when it ran and succeeded.
    pub list_output: Option<String>,
}

/// WSL detection results.
pub struct WslDetector {
    distributions: Vec<WslDistribution>,
    has_wsl: bool,
    has_wsl2: bool,
    has_manage_command: bool,
}

// ---------------------------------------------------------------------------
// Specifications
// ---------------------------------------------------------------------------

/// The views of a sequence of distributions.
pub open spec fn dviews(ds: Seq<WslDistribution>) -> Seq<DistributionView> {
    ds.map_values(|d: WslDistribution| d@)
}

/// No two distributions share a name.
pub open spec fn names_unique(ds: Seq<DistributionView>) -> bool {
    forall|i: int, j: int| 0 <= i < j < ds.len() ==> ds[i].name != ds[j].name
}

/// Some distribution of `ds` is named `n`.
pub open spec fn has_name(ds: Seq<DistributionView>, n: Seq<char>) -> bool {
    exists|i: int| 0 <= i < ds.len() && ds[i].name == n
}

/// The index of the distribution named `n` (meaningful when there is one).
pub open spec fn name_index(ds: Seq<DistributionView>, n: Seq<char>) -> int {
    choose|i: int| 0 <= i < ds.len() && ds[i].name == n
}

/// The distribution named `n`, if any.
pub open spec fn lookup(ds: Seq<DistributionView>, n: Seq<char>) -> Option<DistributionView> {
    if has_name(ds, n) {
        Some(ds[name_index(ds, n)])
    } else {
        None
    }
}

/// `d` stored under its name: it replaces the distribution of that name in
/// place, or is appended when there is none.
pub open spec fn upsert(ds: Seq<DistributionView>, d: DistributionView) -> Seq<DistributionView> {
    if has_name(ds, d.name) {
        ds.update(name_index(ds, d.name), d)
    } else {
        ds.push(d)
    }
}

/// Each of `items` stored in turn.
pub open spec fn upsert_all(ds: Seq<DistributionView>, items: Seq<DistributionView>) -> Seq<DistributionView>
    decreases items.len(),
{
    if items.len() == 0 {
        ds
    } else {
        upsert(upsert_all(ds, items.drop_last()), items.last())
    }
}

/// The state a registry `State` value stands for.
pub open spec fn registry_state(v: Option<Seq<char>>) -> WslState {
    match v {
        Some(s) => if s == "1"@ {
            WslState::Running
        } else if s == "2"@ {
            WslState::Stopped
        } else if s == "3"@ {
            WslState::Installing
        } else if s == "4"@ {
            WslState::Uninstalling
        } else {
            WslState::Unknown
        },
        None => WslState::Unknown,
    }
}

/// The version a registry `Version` value (or a `wsl -l -v` column) stands for.
pub open spec fn version_text(s: Seq<char>) -> WslVersion {
    if s == "1"@ {
        WslVersion::Wsl1
    } else if s == "2"@ {
        WslVersion::Wsl2
    } else {
        WslVersion::Unknown
    }
}

/// The version a registry `Version` value stands for.
pub open spec fn registry_version(v: Option<Seq<char>>) -> WslVersion {
    match v {
        Some(s) => version_text(s),
        None => WslVersion::Unknown,
    }
}

/// The distribution that a registry entry describes, if it is registered.
pub open spec fn registry_view(e: RegistryDistribution) -> Option<DistributionView> {
    if !e.registered {
        None
    } else {
        let version = registry_version(opt_text(e.version));
        Some(DistributionView {
            name: e.name@,
            version,
            state: registry_state(opt_text(e.state)),
            default: false,
            wsl_path: opt_text(e.base_path),
            vhdx_path: if version == WslVersion::Wsl2 { opt_text(e.vhdx_file_path) } else { None },
            filesystem_path: match e.base_path {
                Some(b) => Some(join_child(b@, "rootfs"@)),
                None => None,
            },
        })
    }
}

/// The distributions that registry entries describe, in order.
pub open spec fn registry_views(es: Seq<RegistryDistribution>) -> Seq<DistributionView>
    decreases es.len(),
{
    if es.len() == 0 {
        Seq::empty()
    } else {
        let rest = registry_views(es.drop_last());
        match registry_view(es.last()) {
            Some(d) => rest.push(d),
            None => rest,
        }
    }
}

/// The state a `wsl -l -v` state column stands for.
pub open spec fn list_state(s: Seq<char>) -> WslState {
    if s == "Running"@ {
        WslState::Running
    } else if s == "Stopped"@ {
        WslState::Stopped
    } else {
        WslState::Unknown
    }
}

/// The distribution that one line of `wsl -l -v` describes: a name, a
/// state and a version column, and a `*` in a fourth column for the default.
pub open spec fn list_line(line: Seq<char>) -> Option<DistributionView> {
    let w = words(line);
    if w.len() >= 3 {
        Some(DistributionView {
            name: w[0],
            version: version_text(w[2]),
            state: list_state(w[1]),
            default: w.len() > 3 && w[3] == "*"@,
            wsl_path: None,
            vhdx_path: None,
            filesystem_path: None,
        })
    } else {
        None
    }
}

/// The distributions that lines of `wsl -l -v` describe, in order.
pub open spec fn list_views(lines: Seq<Seq<char>>) -> Seq<DistributionView>
    decreases lines.len(),
{
    if lines.len() == 0 {
        Seq::empty()
    } else {
        let rest = list_views(lines.drop_last());
        match list_line(lines.last()) {
            Some(d) => rest.push(d),
            None => rest,
        }
    }
}

/// The distributions listed by the output of `wsl -l -v`, whose first line
/// is a header.
pub open spec fn listed(stdout: Seq<char>) -> Seq<DistributionView> {
    let ls = lines_of(stdout);
    if ls.len() == 0 {
        Seq::empty()
    } else {
        list_views(ls.drop_first())
    }
}

/// Some flag is set.
pub open spec fn any_flag(flags: Seq<bool>) -> bool {
    exists|i: int| 0 <= i < flags.len() && flags[i]
}

/// A build number value, read as a number.
pub open spec fn build_of(v: Option<Seq<char>>) -> Option<nat> {
    match v {
        Some(s) => parse_unsigned(s, u32::MAX as nat),
        None => None,
    }
}

/// The registry shows the WSL optional feature: a package family list could
/// be read, or else the feature package's install state says `Installed`.
pub open spec fn registry_feature_spec(lists: Seq<bool>, install_state: Option<Seq<char>>) -> bool {
    any_flag(lists) || (install_state matches Some(s) && contains_seq(s, "Installed"@))
}

/// WSL is installed, by any of the four signs.
pub open spec fn wsl_present(p: WslProbes) -> bool {
    p.wsl_exe_in_path || registry_feature_spec(p.package_family_lists@, opt_text(p.install_state))
        || p.lxss_default_distribution || any_flag(p.lxss_distribution_keys@) || any_flag(
        p.wsl_files@,
    )
}

/// WSL2 is available, by any of the four signs.
pub open spec fn wsl2_spec(
    kernel_file_path: Option<Seq<char>>,
    kernel_files: Seq<bool>,
    status_output: Option<Seq<char>>,
    build_number: Option<Seq<char>>,
) -> bool {
    ||| kernel_file_path matches Some(k) && (contains_seq(k, "kernel"@) || contains_seq(k, "wsl2"@))
    ||| any_flag(kernel_files)
    ||| status_output matches Some(s) && contains_seq(s, "WSL 2"@)
    ||| build_of(build_number) matches Some(b) && b >= 18362
}

/// `wsl --manage` is available: its help ran, or the build is 21364 or later.
pub open spec fn manage_spec(help_succeeded: bool, build_number: Option<Seq<char>>) -> bool {
    help_succeeded || (build_of(build_number) matches Some(b) && b >= 21364)
}

/// Total of the VHDX sizes of `ds` whose VHDX path is known; `sizes[i]`
/// is the size of the file of `ds[i]`, when it could be read.
pub open spec fn vhdx_total(ds: Seq<DistributionView>, sizes: Seq<Option<u64>>) -> int
    decreases ds.len(),
{
    if ds.len() == 0 {
        0
    } else {
        let k = ds.len() - 1;
        vhdx_total(ds.drop_last(), sizes) + if ds.last().vhdx_path is Some && k < sizes.len()
            && sizes[k] is Some {
            sizes[k].unwrap() as int
        } else {
            0
        }
    }
}

/// The WSL2 distributions of `ds`, in order.
pub open spec fn wsl2_only(ds: Seq<DistributionView>) -> Seq<DistributionView> {
    ds.filter(|d: DistributionView| d.version == WslVersion::Wsl2)
}

// ---------------------------------------------------------------------------
// Laws
// ---------------------------------------------------------------------------

/// A disk image path only comes with a WSL2 distribution.
pub open spec fn vhdx_only_wsl2(ds: Seq<DistributionView>) -> bool {
    forall|i: int| 0 <= i < ds.len() && (#[trigger] ds[i]).vhdx_path is Some ==> ds[i].version == WslVersion::Wsl2
}

proof fn lemma_vhdx_registry(es: Seq<RegistryDistribution>)
    ensures
        vhdx_only_wsl2(registry_views(es)),
    decreases es.len(),
{
    if es.len() > 0 {
        lemma_vhdx_registry(es.drop_last());
    }
}

proof fn lemma_vhdx_list_views(lines: Seq<Seq<char>>)
    ensures
        vhdx_only_wsl2(list_views(lines)),
    decreases lines.len(),
{
    if lines.len() > 0 {
        lemma_vhdx_list_views(lines.drop_last());
    }
}

proof fn lemma_vhdx_listed(stdout: Seq<char>)
    ensures
        vhdx_only_wsl2(listed(stdout)),
{
    let ls = lines_of(stdout);
    if ls.len() > 0 {
        lemma_vhdx_list_views(ls.drop_first());
    }
}

proof fn lemma_vhdx_upsert_all(ds: Seq<DistributionView>, items: Seq<DistributionView>)
    requires
        vhdx_only_wsl2(ds),
        vhdx_only_wsl2(items),
    ensures
        vhdx_only_wsl2(upsert_all(ds, items)),
    decreases items.len(),
{
    if items.len() > 0 {
        let prev = items.drop_last();
        assert(vhdx_only_wsl2(prev)) by {
            assert forall|i: int| 0 <= i < prev.len() && (#[trigger] prev[i]).vhdx_path is Some implies prev[i].version
                == WslVersion::Wsl2 by {
                assert(prev[i] == items[i]);
            }
        }
        lemma_vhdx_upsert_all(ds, prev);
        let u = upsert_all(ds, prev);
        let d = items.last();
        assert(d == items[items.len() - 1]);
        if has_name(u, d.name) {
            let k = name_index(u, d.name);
            assert forall|i: int| 0 <= i < u.update(k, d).len() && (#[trigger] u.update(k, d)[i]).vhdx_path is Some implies u.update(
                k,
                d,
            )[i].version == WslVersion::Wsl2 by {
                if i == k {
                } else {
                }
            }
        } else {
            assert forall|i: int| 0 <= i < u.push(d).len() && (#[trigger] u.push(d)[i]).vhdx_path is Some implies u.push(
                d,
            )[i].version == WslVersion::Wsl2 by {
                if i < u.len() {
                    assert(u.push(d)[i] == u[i]);
                }
            }
        }
    }
}

proof fn lemma_filter_within(ds: Seq<DistributionView>)
    ensures
        forall|i: int| 0 <= i < wsl2_only(ds).len() ==> ds.contains(#[trigger] wsl2_only(ds)[i]),
        names_unique(ds) ==> names_unique(wsl2_only(ds)),
    decreases ds.len(),
{
    reveal(Seq::filter);
    if ds.len() > 0 {
        let rest = ds.drop_last();
        lemma_filter_within(rest);
        let out = wsl2_only(ds);
        let prev = wsl2_only(rest);
        assert forall|i: int| 0 <= i < out.len() implies ds.contains(#[trigger] out[i]) by {
            if i < prev.len() {
                assert(rest.contains(prev[i]));
                let k = choose|k: int| 0 <= k < rest.len() && rest[k] == prev[i];
                assert(ds[k] == out[i]);
            } else {
                assert(out[i] == ds.last());
                assert(ds[ds.len() - 1] == out[i]);
            }
        }
        if names_unique(ds) {
            assert(names_unique(rest)) by {
                assert forall|i: int, j: int| 0 <= i < j < rest.len() implies rest[i].name != rest[j].name by {
                    assert(rest[i] == ds[i] && rest[j] == ds[j]);
                }
            }
            assert forall|i: int, j: int| 0 <= i < j < out.len() implies out[i].name != out[j].name by {
                if j < prev.len() {
                } else {
                    assert(rest.contains(prev[i]));
                    let k = choose|k: int| 0 <= k < rest.len() && rest[k] == prev[i];
                    assert(ds[k] == out[i]);
                    assert(out[j] == ds[ds.len() - 1]);
                }
            }
        }
    }
}

/// The WSL2 distributions are exactly the listed distributions of version
/// WSL2, each listed once: none is added, none left out, and none repeated
/// when the names of the list are distinct.
pub proof fn law_wsl2_filter(ds: Seq<DistributionView>)
    ensures
        forall|d: DistributionView| #[trigger] wsl2_only(ds).contains(d) <==> (ds.contains(d) && d.version == WslVersion::Wsl2),
        wsl2_only(ds).len() <= ds.len(),
        names_unique(ds) ==> names_unique(wsl2_only(ds)),
{
    lemma_filter_within(ds);
    ds.filter_lemma(|d: DistributionView| d.version == WslVersion::Wsl2);
    assert forall|d: DistributionView| #[trigger] wsl2_only(ds).contains(d) implies ds.contains(d) && d.version
        == WslVersion::Wsl2 by {
        let i = choose|i: int| 0 <= i < wsl2_only(ds).len() && wsl2_only(ds)[i] == d;
        assert(ds.contains(wsl2_only(ds)[i]));
    }
    assert forall|d: DistributionView| ds.contains(d) && d.version == WslVersion::Wsl2 implies #[trigger] wsl2_only(
        ds,
    ).contains(d) by {
        let i = choose|i: int| 0 <= i < ds.len() && ds[i] == d;
        assert(wsl2_only(ds).contains(ds[i]));
    }
}


/// Storing a distribution keeps names unique; afterwards its name looks up
/// to it, and every other name looks up to what it did before.
pub proof fn law_upsert_lookup(ds: Seq<DistributionView>, d: DistributionView, n: Seq<char>)
    requires
        names_unique(ds),
    ensures
        names_unique(upsert(ds, d)),
        lookup(upsert(ds, d), d.name) == Some(d),
        n != d.name ==> lookup(upsert(ds, d), n) == lookup(ds, n),
{
    let r = upsert(ds, d);
    if has_name(ds, d.name) {
        let k = name_index(ds, d.name);
        assert(r[k].name == d.name);
        assert(has_name(r, d.name));
        assert(names_unique(r));
        let k2 = name_index(r, d.name);
        assert(k2 == k);
        if n != d.name {
            if has_name(ds, n) {
                let i = name_index(ds, n);
                assert(r[i] == ds[i]);
                assert(has_name(r, n));
                let i2 = name_index(r, n);
                assert(r[i2].name == n);
                assert(i2 == i);
            } else {
                assert forall|i: int| 0 <= i < r.len() implies r[i].name != n by {
                    if i != k {
                        assert(r[i] == ds[i]);
                    }
                }
            }
        }
    } else {
        let k = ds.len() as int;
        assert(r[k] == d);
        assert(names_unique(r));
        assert(has_name(r, d.name));
        let k2 = name_index(r, d.name);
        assert(k2 == k);
        if n != d.name {
            if has_name(ds, n) {
                let i = name_index(ds, n);
                assert(r[i] == ds[i]);
                assert(has_name(r, n));
                let i2 = name_index(r, n);
                assert(i2 == i);
            } else {
                assert forall|i: int| 0 <= i < r.len() implies r[i].name != n by {
                    if i < k {
                        assert(r[i] == ds[i]);
                    }
                }
            }
        }
    }
}

/// Storing several distributions keeps names unique.
pub proof fn lemma_upsert_all_unique(ds: Seq<DistributionView>, items: Seq<DistributionView>)
    requires
        names_unique(ds),
    ensures
        names_unique(upsert_all(ds, items)),
    decreases items.len(),
{
    if items.len() > 0 {
        lemma_upsert_all_unique(ds, items.drop_last());
        law_upsert_lookup(upsert_all(ds, items.drop_last()), items.last(), items.last().name);
    }
}

// ---------------------------------------------------------------------------
// Executable code
// ---------------------------------------------------------------------------

/// The distribution names looked up in the registry.
pub fn common_distribution_names() -> (r: Vec<&'static str>)
    ensures
        r@.len() == 27,
        r@ == seq![
            "Ubuntu", "Ubuntu-18.04", "Ubuntu-20.04", "Ubuntu-22.04", "Debian", "kali-linux",
            "openSUSE-Leap", "SLES", "SLES-12", "SLES-15", "Ubuntu-16.04", "Ubuntu-18.04",
            "Ubuntu-20.04", "Arch", "CentOS", "CentOS-7", "CentOS-8", "Debian", "Fedora",
            "Fedora-33", "Fedora-34", "Pengwin", "Pengwin-Enterprise", "RancherOS",
            "RancherDesktop", "Alpine", "Alpine-3.14",
        ],
{
    vec![
        "Ubuntu", "Ubuntu-18.04", "Ubuntu-20.04", "Ubuntu-22.04", "Debian", "kali-linux",
        "openSUSE-Leap", "SLES", "SLES-12", "SLES-15", "Ubuntu-16.04", "Ubuntu-18.04",
        "Ubuntu-20.04", "Arch", "CentOS", "CentOS-7", "CentOS-8", "Debian", "Fedora",
        "Fedora-33", "Fedora-34", "Pengwin", "Pengwin-Enterprise", "RancherOS",
        "RancherDesktop", "Alpine", "Alpine-3.14",
    ]
}

/// A copy of an optional string.
fn copy_opt(o: &Option<String>) -> (r: Option<String>)
    ensures
        opt_text(r) == opt_text(*o),
{
    match o {
        Some(s) => Some(s.clone()),
        None => None,
    }
}

/// A copy of a distribution.
fn copy_distribution(d: &WslDistribution) -> (r: WslDistribution)
    ensures
        r@ == d@,
{
    WslDistribution {
        name: d.name.clone(),
        version: d.version,
        state: d.state,
        default: d.default,
        wsl_path: copy_opt(&d.wsl_path),
        vhdx_path: copy_opt(&d.vhdx_path),
        filesystem_path: copy_opt(&d.filesystem_path),
    }
}

/// Store `d` under its name in `ds`.
fn upsert_exec(ds: &mut Vec<WslDistribution>, d: WslDistribution)
    requires
        names_unique(dviews(old(ds)@)),
    ensures
        dviews(final(ds)@) == upsert(dviews(old(ds)@), d@),
        names_unique(dviews(final(ds)@)),
{
    let ghost before = dviews(ds@);
    proof {
        law_upsert_lookup(before, d@, d@.name);
    }
    let mut i: usize = 0;
    while i < ds.len()
        invariant
            i <= ds@.len(),
            dviews(ds@) == before,
            before == dviews(old(ds)@),
            names_unique(before),
            forall|j: int| 0 <= j < i ==> before[j].name != d@.name,
        decreases ds@.len() - i,
    {
        if str_eq(ds[i].name.as_str(), d.name.as_str()) {
            proof {
                assert(before[i as int].name == d@.name);
                assert(has_name(before, d@.name));
                let k = name_index(before, d@.name);
                assert(k == i);
            }
            let ghost dv = d@;
            ds.set(i, d);
            assert(dviews(ds@) =~= before.update(i as int, dv));
            assert(upsert(before, dv) == before.update(i as int, dv));
            return;
        }
        i += 1;
    }
    proof {
        assert(!has_name(before, d@.name));
    }
    ds.push(d);
    assert(dviews(ds@) =~= before.push(d@));
}

/// The distribution a registry entry describes, if it is registered.
pub fn registry_distribution(e: &RegistryDistribution) -> (r: Option<WslDistribution>)
    ensures
        match registry_view(*e) {
            Some(v) => r matches Some(d) && d@ == v,
            None => r is None,
        },
{
    if !e.registered {
        return None;
    }
    let state = match &e.state {
        Some(s) => {
            proof {
                reveal_strlit("1");
                reveal_strlit("2");
                reveal_strlit("3");
                reveal_strlit("4");
            }
            if str_eq(s.as_str(), "1") {
                WslState::Running
            } else if str_eq(s.as_str(), "2") {
                WslState::Stopped
            } else if str_eq(s.as_str(), "3") {
                WslState::Installing
            } else if str_eq(s.as_str(), "4") {
                WslState::Uninstalling
            } else {
                WslState::Unknown
            }
        },
        None => WslState::Unknown,
    };
    let version = match &e.version {
        Some(s) => version_of_text(s.as_str()),
        None => WslVersion::Unknown,
    };
    let wsl_path = copy_opt(&e.base_path);
    let vhdx_path = if version == WslVersion::Wsl2 {
        copy_opt(&e.vhdx_file_path)
    } else {
        None
    };
    let filesystem_path = match &e.base_path {
        Some(b) => Some(join_path(b.as_str(), "rootfs")),
        None => None,
    };
    Some(WslDistribution {
        name: e.name.clone(),
        version,
        state,
        default: false,
        wsl_path,
        vhdx_path,
        filesystem_path,
    })
}

/// The version a `Version` value or version column stands for.
fn version_of_text(s: &str) -> (v: WslVersion)
    ensures
        v == version_text(s@),
{
    if str_eq(s, "1") {
        WslVersion::Wsl1
    } else if str_eq(s, "2") {
        WslVersion::Wsl2
    } else {
        WslVersion::Unknown
    }
}

/// The distribution one line of `wsl -l -v` describes, if any.
fn parse_list_line(line: &Vec<char>) -> (r: Option<WslDistribution>)
    ensures
        match list_line(line@) {
            Some(v) => r matches Some(d) && d@ == v,
            None => r is None,
        },
{
    let w = words_chars(line);
    if w.len() < 3 {
        return None;
    }
    let name = string_of(&w[0]);
    let state_text = string_of(&w[1]);
    let version_text_s = string_of(&w[2]);
    let state = if str_eq(state_text.as_str(), "Running") {
        WslState::Running
    } else if str_eq(state_text.as_str(), "Stopped") {
        WslState::Stopped
    } else {
        WslState::Unknown
    };
    let version = version_of_text(version_text_s.as_str());
    let default = if w.len() > 3 {
        let t = string_of(&w[3]);
        str_eq(t.as_str(), "*")
    } else {
        false
    };
    Some(WslDistribution {
        name,
        version,
        state,
        default,
        wsl_path: None,
        vhdx_path: None,
        filesystem_path: None,
    })
}

/// The distributions listed by the output of `wsl -l -v`: each line after
/// the header with at least a name, a state and a version column.
pub fn parse_wsl_list(stdout: &str) -> (r: Vec<WslDistribution>)
    ensures
        dviews(r@) == listed(stdout@),
{
    let ls = lines_chars(&chars_of(stdout));
    let mut out: Vec<WslDistribution> = Vec::new();
    if ls.len() == 0 {
        assert(dviews(out@) =~= listed(stdout@));
        return out;
    }
    let ghost rest = crate::text::views(ls@).drop_first();
    let mut i: usize = 1;
    assert(rest.subrange(0, 0) =~= Seq::<Seq<char>>::empty());
    assert(dviews(out@) =~= list_views(rest.subrange(0, 0)));
    while i < ls.len()
        invariant
            1 <= i <= ls@.len(),
            rest == crate::text::views(ls@).drop_first(),
            crate::text::views(ls@) == lines_of(stdout@),
            dviews(out@) == list_views(rest.subrange(0, i - 1)),
        decreases ls@.len() - i,
    {
        let ghost before = dviews(out@);
        assert(rest.subrange(0, i as int).drop_last() =~= rest.subrange(0, i - 1));
        assert(rest.subrange(0, i as int).last() == ls@[i as int]@);
        match parse_list_line(&ls[i]) {
            Some(d) => {
                out.push(d);
                assert(dviews(out@) =~= before.push(d@));
            },
            None => {},
        }
        i += 1;
    }
    assert(rest.subrange(0, rest.len() as int) =~= rest);
    out
}

/// The registry shows the WSL optional feature.
pub fn registry_feature_present(package_family_lists: &[bool], install_state: Option<&str>) -> (b: bool)
    ensures
        b == registry_feature_spec(
            package_family_lists@,
            match install_state { Some(s) => Some(s@), None => None },
        ),
{
    if any_true(package_family_lists) {
        return true;
    }
    match install_state {
        Some(s) => str_contains(s, "Installed"),
        None => false,
    }
}

/// A build number value read as a number.
fn build_number_of(v: &Option<String>) -> (r: Option<u32>)
    ensures
        match build_of(opt_text(*v)) {
            Some(b) => r == Some(b as u32),
            None => r is None,
        },
{
    match v {
        Some(s) => parse_u32(s.as_str()),
        None => None,
    }
}

/// WSL2 is available: the registry kernel path names a kernel, a WSL2
/// kernel file exists, `wsl --status` reports WSL 2, or the build is 18362
/// or later.
pub fn wsl2_available(
    kernel_file_path: &Option<String>,
    kernel_files: &[bool],
    status_output: &Option<String>,
    build_number: &Option<String>,
) -> (b: bool)
    ensures
        b == wsl2_spec(
            opt_text(*kernel_file_path),
            kernel_files@,
            opt_text(*status_output),
            opt_text(*build_number),
        ),
{
    match kernel_file_path {
        Some(k) => {
            if str_contains(k.as_str(), "kernel") || str_contains(k.as_str(), "wsl2") {
                return true;
            }
        },
        None => {},
    }
    if any_true(kernel_files) {
        return true;
    }
    match status_output {
        Some(s) => {
            if str_contains(s.as_str(), "WSL 2") {
                return true;
            }
        },
        None => {},
    }
    match build_number_of(build_number) {
        Some(b) => b >= 18362,
        None => false,
    }
}

/// `wsl --manage` is available.
pub fn manage_command_available(help_succeeded: bool, build_number: &Option<String>) -> (b: bool)
    ensures
        b == manage_spec(help_succeeded, opt_text(*build_number)),
{
    if help_succeeded {
        return true;
    }
    match build_number_of(build_number) {
        Some(b) => b >= 21364,
        None => false,
    }
}

impl WslDetector {
    /// The distributions found, in the order they were first found.
    pub closed spec fn entries(&self) -> Seq<DistributionView> {
        dviews(self.distributions@)
    }

    /// Whether WSL is available.
    pub closed spec fn wsl(&self) -> bool {
        self.has_wsl
    }

    /// Whether WSL2 is available.
    pub closed spec fn wsl2(&self) -> bool {
        self.has_wsl2
    }

    /// Whether `wsl --manage` is available.
    pub closed spec fn manage(&self) -> bool {
        self.has_manage_command
    }

    /// The detector's invariant: no two distributions share a name, WSL2
    /// and `wsl --manage` are only reported along with WSL, and without WSL
    /// no distribution is listed.
    pub closed spec fn wf(&self) -> bool {
        &&& names_unique(self.entries())
        &&& self.has_wsl2 ==> self.has_wsl
        &&& self.has_manage_command ==> self.has_wsl
        &&& !self.has_wsl ==> self.distributions@.len() == 0
        &&& vhdx_only_wsl2(self.entries())
    }

    /// Every detector: WSL2 and `wsl --manage` are reported only along with
    /// WSL, without WSL no distribution is listed, no two distributions
    /// share a name, and a disk image path only comes with a WSL2
    /// distribution.
    pub proof fn law_wsl_flags(d: &WslDetector)
        requires
            d.wf(),
        ensures
            d.wsl2() ==> d.wsl(),
            d.manage() ==> d.wsl(),
            !d.wsl() ==> d.entries().len() == 0,
            names_unique(d.entries()),
            forall|i: int| 0 <= i < d.entries().len() && (#[trigger] d.entries()[i]).vhdx_path is Some ==> d.entries()[i].version
                == WslVersion::Wsl2,
    {
    }

    /// Decide, from what probing found, whether WSL and WSL2 are available
    /// and which distributions are installed. WSL2, `wsl --manage` and the
    /// distributions are only looked at when WSL is there; the registry
    /// entries come first and each line of `wsl -l -v` then replaces the
    /// distribution of its name.
    pub fn new(probes: WslProbes) -> (d: Self)
        ensures
            d.wf(),
            d.wsl() == wsl_present(probes),
            d.wsl2() == (wsl_present(probes) && wsl2_spec(
                opt_text(probes.kernel_file_path),
                probes.kernel_files@,
                opt_text(probes.status_output),
                opt_text(probes.build_number),
            )),
            d.manage() == (wsl_present(probes) && manage_spec(
                probes.manage_help_succeeded,
                opt_text(probes.build_number),
            )),
            d.entries() == (if wsl_present(probes) {
                upsert_all(
                    upsert_all(Seq::empty(), registry_views(probes.registry_distributions@)),
                    match probes.list_output {
                        Some(o) => listed(o@),
                        None => Seq::empty(),
                    },
                )
            } else {
                Seq::empty()
            }),
    {
        let install_state: Option<&str> = match &probes.install_state {
            Some(s) => Some(s.as_str()),
            None => None,
        };
        let has_wsl = probes.wsl_exe_in_path || registry_feature_present(
            probes.package_family_lists.as_slice(),
            install_state,
        ) || probes.lxss_default_distribution || any_true(
            probes.lxss_distribution_keys.as_slice(),
        ) || any_true(probes.wsl_files.as_slice());
        let mut detector = WslDetector {
            distributions: Vec::new(),
            has_wsl,
            has_wsl2: false,
            has_manage_command: false,
        };
        assert(dviews(detector.distributions@) =~= Seq::<DistributionView>::empty());
        if !has_wsl {
            return detector;
        }
        detector.has_wsl2 = wsl2_available(
            &probes.kernel_file_path,
            probes.kernel_files.as_slice(),
            &probes.status_output,
            &probes.build_number,
        );
        detector.has_manage_command = manage_command_available(
            probes.manage_help_succeeded,
            &probes.build_number,
        );
        let regs = &probes.registry_distributions;
        let mut i: usize = 0;
        assert(regs@.subrange(0, 0) =~= Seq::<RegistryDistribution>::empty());
        while i < regs.len()
            invariant
                i <= regs@.len(),
                regs@ == probes.registry_distributions@,
                has_wsl,
                names_unique(dviews(detector.distributions@)),
                dviews(detector.distributions@) == upsert_all(
                    Seq::empty(),
                    registry_views(regs@.subrange(0, i as int)),
                ),
                detector.has_wsl == has_wsl,
                detector.has_wsl2 == wsl2_spec(
                    opt_text(probes.kernel_file_path),
                    probes.kernel_files@,
                    opt_text(probes.status_output),
                    opt_text(probes.build_number),
                ),
                detector.has_manage_command == manage_spec(
                    probes.manage_help_succeeded,
                    opt_text(probes.build_number),
                ),
            decreases regs@.len() - i,
        {
            let ghost prefix = registry_views(regs@.subrange(0, i as int));
            assert(regs@.subrange(0, i + 1).drop_last() =~= regs@.subrange(0, i as int));
            assert(regs@.subrange(0, i + 1).last() == regs@[i as int]);
            match registry_distribution(&regs[i]) {
                Some(d) => {
                    proof {
                        assert(registry_views(regs@.subrange(0, i + 1)) == prefix.push(d@));
                        assert(prefix.push(d@).drop_last() =~= prefix);
                    }
                    upsert_exec(&mut detector.distributions, d);
                },
                None => {},
            }
            i += 1;
        }
        assert(regs@.subrange(0, regs@.len() as int) =~= regs@);
        let ghost base = dviews(detector.distributions@);
        match &probes.list_output {
            Some(o) => {
                let listed_ds = parse_wsl_list(o.as_str());
                let mut j: usize = 0;
                assert(dviews(listed_ds@).subrange(0, 0) =~= Seq::<DistributionView>::empty());
                while j < listed_ds.len()
                    invariant
                        j <= listed_ds@.len(),
                        has_wsl,
                        names_unique(dviews(detector.distributions@)),
                        dviews(detector.distributions@) == upsert_all(
                            base,
                            dviews(listed_ds@).subrange(0, j as int),
                        ),
                        detector.has_wsl == has_wsl,
                        detector.has_wsl2 == wsl2_spec(
                            opt_text(probes.kernel_file_path),
                            probes.kernel_files@,
                            opt_text(probes.status_output),
                            opt_text(probes.build_number),
                        ),
                        detector.has_manage_command == manage_spec(
                            probes.manage_help_succeeded,
                            opt_text(probes.build_number),
                        ),
                    decreases listed_ds@.len() - j,
                {
                    let ghost lv = dviews(listed_ds@);
                    assert(lv.subrange(0, j + 1).drop_last() =~= lv.subrange(0, j as int));
                    assert(lv.subrange(0, j + 1).last() == listed_ds@[j as int]@);
                    let d = copy_distribution(&listed_ds[j]);
                    upsert_exec(&mut detector.distributions, d);
                    j += 1;
                }
                assert(dviews(listed_ds@).subrange(0, listed_ds@.len() as int) =~= dviews(listed_ds@));
            },
            None => {},
        }
        proof {
            lemma_vhdx_registry(probes.registry_distributions@);
            lemma_vhdx_upsert_all(Seq::empty(), registry_views(probes.registry_distributions@));
            let base = upsert_all(Seq::empty(), registry_views(probes.registry_distributions@));
            match probes.list_output {
                Some(o) => {
                    lemma_vhdx_listed(o@);
                    lemma_vhdx_upsert_all(base, listed(o@));
                },
                None => {},
            }
        }
        detector
    }

    /// Whether WSL is available.
    pub fn has_wsl(&self) -> (b: bool)
        ensures
            b == self.wsl(),
    {
        self.has_wsl
    }

    /// Whether WSL2 is available.
    pub fn has_wsl2(&self) -> (b: bool)
        ensures
            b == self.wsl2(),
    {
        self.has_wsl2
    }

    /// Whether `wsl --manage` is available.
    pub fn has_manage_command(&self) -> (b: bool)
        ensures
            b == self.manage(),
    {
        self.has_manage_command
    }

    /// All distributions found.
    pub fn distributions(&self) -> (r: &Vec<WslDistribution>)
        ensures
            dviews(r@) == self.entries(),
    {
        &self.distributions
    }

    /// The distribution of the given name.
    pub fn get_distribution(&self, name: &str) -> (r: Option<&WslDistribution>)
        requires
            self.wf(),
        ensures
            match r {
                Some(d) => lookup(self.entries(), name@) == Some(d@),
                None => lookup(self.entries(), name@) is None,
            },
    {
        let ghost es = self.entries();
        let mut i: usize = 0;
        while i < self.distributions.len()
            invariant
                i <= self.distributions@.len(),
                es == dviews(self.distributions@),
                names_unique(es),
                forall|j: int| 0 <= j < i ==> es[j].name != name@,
            decreases self.distributions@.len() - i,
        {
            if str_eq(self.distributions[i].name.as_str(), name) {
                proof {
                    assert(es[i as int].name == name@);
                    assert(has_name(es, name@));
                    let k = name_index(es, name@);
                    assert(k == i);
                }
                return Some(&self.distributions[i]);
            }
            i += 1;
        }
        assert(!has_name(es, name@));
        None
    }

    /// Whether the named distribution is a WSL2 one with a VHDX path whose
    /// file exists (`vhdx_exists` says whether that file exists).
    pub fn has_vhdx(&self, distribution: &str, vhdx_exists: bool) -> (b: bool)
        requires
            self.wf(),
        ensures
            b == (lookup(self.entries(), distribution@) matches Some(d) && d.version
                == WslVersion::Wsl2 && d.vhdx_path is Some && vhdx_exists),
    {
        match self.get_distribution(distribution) {
            Some(d) => d.version == WslVersion::Wsl2 && d.vhdx_path.is_some() && vhdx_exists,
            None => false,
        }
    }

    /// The WSL2 distributions, in order.
    pub fn get_wsl2_distributions(&self) -> (r: Vec<&WslDistribution>)
        ensures
            r@.map_values(|d: &WslDistribution| d@) == wsl2_only(self.entries()),
    {
        let ghost es = self.entries();
        let mut out: Vec<&WslDistribution> = Vec::new();
        let mut i: usize = 0;
        assert(es.subrange(0, 0).filter(|d: DistributionView| d.version == WslVersion::Wsl2)
            =~= Seq::<DistributionView>::empty());
        while i < self.distributions.len()
            invariant
                i <= self.distributions@.len(),
                es == dviews(self.distributions@),
                out@.map_values(|d: &WslDistribution| d@) == es.subrange(0, i as int).filter(
                    |d: DistributionView| d.version == WslVersion::Wsl2,
                ),
            decreases self.distributions@.len() - i,
        {
            let ghost before = out@.map_values(|d: &WslDistribution| d@);
            assert(es.subrange(0, i + 1).drop_last() =~= es.subrange(0, i as int));
            assert(es.subrange(0, i + 1).last() == self.distributions@[i as int]@);
            proof {
                reveal(Seq::filter);
            }
            if self.distributions[i].version == WslVersion::Wsl2 {
                out.push(&self.distributions[i]);
                assert(out@.map_values(|d: &WslDistribution| d@) =~= before.push(
                    self.distributions@[i as int]@,
                ));
            }
            i += 1;
        }
        assert(es.subrange(0, es.len() as int) =~= es);
        out
    }

    /// Total size of the VHDX files of the WSL2 distributions: `vhdx_sizes[i]`
    /// is the size of the VHDX file of the `i`-th distribution that
    /// [`WslDetector::get_wsl2_distributions`] returns, when it could be read.
    pub fn get_total_wsl2_size(&self, vhdx_sizes: &[Option<u64>]) -> (t: u64)
        requires
            vhdx_total(wsl2_only(self.entries()), vhdx_sizes@) <= u64::MAX,
        ensures
            t == vhdx_total(wsl2_only(self.entries()), vhdx_sizes@),
    {
        let w = self.get_wsl2_distributions();
        let ghost ws = wsl2_only(self.entries());
        let mut total: u64 = 0;
        let mut i: usize = 0;
        while i < w.len()
            invariant
                i <= w@.len(),
                w@.map_values(|d: &WslDistribution| d@) == ws,
                vhdx_total(ws, vhdx_sizes@) <= u64::MAX,
                total == vhdx_total(ws.subrange(0, i as int), vhdx_sizes@),
            decreases w@.len() - i,
        {
            assert(ws.subrange(0, i + 1).drop_last() =~= ws.subrange(0, i as int));
            assert(ws.subrange(0, i + 1).last() == w@[i as int]@);
            proof {
                lemma_vhdx_total_prefix(ws, vhdx_sizes@, i as int + 1);
            }
            if w[i].vhdx_path.is_some() && i < vhdx_sizes.len() {
                match vhdx_sizes[i] {
                    Some(s) => {
                        total = total + s;
                    },
                    None => {},
                }
            }
            i += 1;
        }
        assert(ws.subrange(0, ws.len() as int) =~= ws);
        total
    }
}

/// A prefix of the distributions totals no more than all of them.
pub proof fn lemma_vhdx_total_prefix(ds: Seq<DistributionView>, sizes: Seq<Option<u64>>, k: int)
    requires
        0 <= k <= ds.len(),
    ensures
        vhdx_total(ds.subrange(0, k), sizes) <= vhdx_total(ds, sizes),
        vhdx_total(ds.subrange(0, k), sizes) >= 0,
    decreases ds.len(),
{
    if k < ds.len() {
        assert(ds.drop_last().subrange(0, k) =~= ds.subrange(0, k));
        lemma_vhdx_total_prefix(ds.drop_last(), sizes, k);
    } else {
        assert(ds.subrange(0, k) =~= ds);
        lemma_vhdx_total_nonneg(ds, sizes);
    }
}

/// Totals are never negative.
pub proof fn lemma_vhdx_total_nonneg(ds: Seq<DistributionView>, sizes: Seq<Option<u64>>)
    ensures
        vhdx_total(ds, sizes) >= 0,
    decreases ds.len(),
{
    if ds.len() > 0 {
        lemma_vhdx_total_nonneg(ds.drop_last(), sizes);
    }
}


/// A line of `wsl -l -v` with at least three words describes the
/// distribution named by its first word; its state is running for the word
/// `Running`, stopped for `Stopped` and unknown for any other; its version
/// is WSL1 for `1`, WSL2 for `2` and unknown otherwise; it is the default
/// when a fourth word is `*`; no paths are known from the line. A line of
/// fewer words describes nothing.
pub proof fn law_list_line(line: Seq<char>)
    ensures
        words(line).len() < 3 ==> list_line(line) is None,
        words(line).len() >= 3 ==> (list_line(line) matches Some(d) && d.name == words(line)[0]
            && (words(line)[1] == "Running"@ ==> d.state == WslState::Running)
            && (words(line)[1] == "Stopped"@ ==> d.state == WslState::Stopped)
            && (words(line)[1] != "Running"@ && words(line)[1] != "Stopped"@ ==> d.state == WslState::Unknown)
            && (words(line)[2] == "1"@ ==> d.version == WslVersion::Wsl1)
            && (words(line)[2] == "2"@ ==> d.version == WslVersion::Wsl2)
            && (words(line)[2] != "1"@ && words(line)[2] != "2"@ ==> d.version == WslVersion::Unknown)
            && (d.default <==> words(line).len() > 3 && words(line)[3] == "*"@)
            && d.wsl_path is None && d.vhdx_path is None && d.filesystem_path is None),
{
    reveal_strlit("Running");
    reveal_strlit("Stopped");
    reveal_strlit("1");
    reveal_strlit("2");
    assert("Running"@ != "Stopped"@) by {
        assert("Running"@[0] != "Stopped"@[0]);
    }
    assert("1"@ != "2"@) by {
        assert("1"@[0] != "2"@[0]);
    }
}


/// A registered distribution's registry entry gives its state by the
/// `State` value `1` (running), `2` (stopped), `3` (installing) or `4`
/// (uninstalling), anything else or nothing being unknown; and its version
/// by the `Version` value `1` or `2`, anything else or nothing being
/// unknown.
pub proof fn law_registry_values(v: Option<Seq<char>>)
    ensures
        v == Some("1"@) ==> registry_state(v) == WslState::Running && registry_version(v) == WslVersion::Wsl1,
        v == Some("2"@) ==> registry_state(v) == WslState::Stopped && registry_version(v) == WslVersion::Wsl2,
        v == Some("3"@) ==> registry_state(v) == WslState::Installing,
        v == Some("4"@) ==> registry_state(v) == WslState::Uninstalling,
        v != Some("1"@) && v != Some("2"@) && v != Some("3"@) && v != Some("4"@) ==> registry_state(v)
            == WslState::Unknown,
        v != Some("1"@) && v != Some("2"@) ==> registry_version(v) == WslVersion::Unknown,
{
    reveal_strlit("1");
    reveal_strlit("2");
    reveal_strlit("3");
    reveal_strlit("4");
    assert("1"@[0] != "2"@[0] && "1"@[0] != "3"@[0] && "1"@[0] != "4"@[0] && "2"@[0] != "3"@[0]
        && "2"@[0] != "4"@[0] && "3"@[0] != "4"@[0]);
}

} // verus!
