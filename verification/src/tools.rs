//! Which outside tools the cleaner can use.
//!
//! The caller looks each tool up on the `PATH` and runs its version
//! command; what it found comes in as a [`ToolProbes`] value.
use vstd::prelude::*;
use crate::text::{
    ascii_lower, chars_of, decimal, fold_case, find, is_first_occurrence, lines_chars, lines_of, push_char,
    push_decimal, str_eq, string_of, to_owned, trim, trim_chars, views, words, words_chars,
};
use crate::wsl::opt_text;

verus! {

/// Information about a tool.
#[derive(Debug, Clone)]
pub struct ToolInfo {
    pub name: String,
    pub version: Option<String>,
    pub path: Option<String>,
    pub available: bool,
    pub required: bool,
    pub description: String,
}

/// A tool as plain values.
pub struct ToolView {
    pub name: Seq<char>,
    pub version: Option<Seq<char>>,
    pub path: Option<Seq<char>>,
    pub available: bool,
    pub required: bool,
    pub description: Seq<char>,
}

impl View for ToolInfo {
    type V = ToolView;

    open spec fn view(&self) -> ToolView {
        ToolView {
            name: self.name@,
            version: opt_text(self.version),
            path: opt_text(self.path),
            available: self.available,
            required: self.required,
            description: self.description@,
        }
    }
}

/// Where a tool's version comes from.
#[derive(Debug, Clone, Copy, PartialEq, Eq, Structural)]
pub enum VersionSource {
    /// The file version of the executable, as [`file_version_text`] gives it.
    FileVersion,
    /// The output of its version command, trimmed.
    Trimmed,
    /// The first line of the output of its version command, trimmed.
    FirstLine,
    /// The NuGet banner, read by [`ToolDetector::parse_nuget_version`].
    NugetBanner,
    /// Windows PowerShell 5.1, built into Windows.
    Builtin,
    /// No version is looked up.
    NoVersion,
}

/// What was found for one tool.
#[derive(Debug, Clone)]
pub struct ToolProbe {
    /// Where the executable was found on the `PATH`.
    pub path: Option<String>,
    /// The version text the tool's version source reads, when there was one:
    /// the file version, or the output of the version command when it
    /// succeeded (for NuGet, the banner of `nuget help`, or of `nuget` alone
    /// when that failed).
    pub output: Option<String>,
}

/// What was found for each tool.
#[derive(Debug, Clone)]
pub struct ToolProbes {
    pub diskpart: ToolProbe,
    /// Reading diskpart's version resource failed.
    pub diskpart_version_failed: bool,
    pub wsl: ToolProbe,
    pub docker: ToolProbe,
    pub powershell: ToolProbe,
    pub pwsh: ToolProbe,
    pub npm: ToolProbe,
    pub pip: ToolProbe,
    pub cargo: ToolProbe,
    pub nuget: ToolProbe,
    pub git: ToolProbe,
    pub vscode: ToolProbe,
    pub schtasks: ToolProbe,
    pub sc: ToolProbe,
    pub wevtutil: ToolProbe,
}

/// Why the tools could not be described.
#[derive(Debug, Clone, Copy, PartialEq, Eq, Structural)]
pub enum ToolError {
    /// diskpart was found, but its version resource could not be read.
    VersionInfoUnreadable,
}

/// The detected tools.
pub struct ToolDetector {
    tools: Vec<ToolInfo>,
}

// ---------------------------------------------------------------------------
// Specifications
// ---------------------------------------------------------------------------

/// The marker that precedes the version in the NuGet banner.
pub open spec fn nuget_marker() -> Seq<char> {
    "nuget version:"@
}

/// The version that the first banner line holding the marker (in any case)
/// gives: the first word after the marker; no version if no word follows it
/// or no line holds it.
pub open spec fn nuget_version_in(lines: Seq<Seq<char>>) -> Option<Seq<char>>
    decreases lines.len(),
{
    if lines.len() == 0 {
        None
    } else {
        let l = trim(lines[0]);
        let f = fold_case(l);
        if exists|i: int| is_first_occurrence(f, nuget_marker(), i) {
            let i = choose|i: int| is_first_occurrence(f, nuget_marker(), i);
            let w = words(trim(l.subrange(i + nuget_marker().len(), l.len() as int)));
            if w.len() == 0 {
                None
            } else {
                Some(w[0])
            }
        } else {
            nuget_version_in(lines.drop_first())
        }
    }
}

/// The version a source reads from the probed text.
pub open spec fn version_from(source: VersionSource, out: Option<Seq<char>>) -> Option<Seq<char>> {
    match source {
        VersionSource::FileVersion => out,
        VersionSource::Trimmed => match out {
            Some(o) => Some(trim(o)),
            None => None,
        },
        VersionSource::FirstLine => match out {
            Some(o) => if lines_of(o).len() > 0 {
                Some(trim(lines_of(o)[0]))
            } else {
                None
            },
            None => None,
        },
        VersionSource::NugetBanner => match out {
            Some(o) => nuget_version_in(lines_of(o)),
            None => None,
        },
        VersionSource::Builtin => Some("5.1"@),
        VersionSource::NoVersion => None,
    }
}

/// The information about a tool of the catalog, from what was found for it.
pub open spec fn tool_view(
    name: Seq<char>,
    required: bool,
    description: Seq<char>,
    source: VersionSource,
    probe: ToolProbe,
) -> ToolView {
    ToolView {
        name,
        version: if probe.path is Some { version_from(source, opt_text(probe.output)) } else { None },
        path: opt_text(probe.path),
        available: probe.path is Some,
        required,
        description,
    }
}

/// The tools in the order they are detected: name, required, description,
/// version source.
pub open spec fn catalog() -> Seq<(Seq<char>, bool, Seq<char>, VersionSource)> {
    seq![
        ("diskpart"@, true, "Disk partition management tool"@, VersionSource::FileVersion),
        ("wsl"@, false, "Windows Subsystem for Linux"@, VersionSource::Trimmed),
        ("docker"@, false, "Docker container platform"@, VersionSource::Trimmed),
        ("powershell"@, true, "Windows PowerShell"@, VersionSource::Builtin),
        ("pwsh"@, false, "PowerShell 7+"@, VersionSource::Trimmed),
        ("npm"@, false, "Node.js package manager"@, VersionSource::Trimmed),
        ("pip"@, false, "Python package manager"@, VersionSource::Trimmed),
        ("cargo"@, false, "Rust package manager"@, VersionSource::Trimmed),
        ("nuget"@, false, ".NET package manager"@, VersionSource::NugetBanner),
        ("git"@, false, "Git version control"@, VersionSource::Trimmed),
        ("vscode"@, false, "Visual Studio Code"@, VersionSource::FirstLine),
        ("schtasks"@, false, "Task scheduler utility"@, VersionSource::NoVersion),
        ("sc"@, false, "Service control utility"@, VersionSource::NoVersion),
        ("wevtutil"@, false, "Windows Event Log utility"@, VersionSource::NoVersion),
    ]
}

/// The probes in catalog order.
pub open spec fn probe_seq(p: ToolProbes) -> Seq<ToolProbe> {
    seq![
        p.diskpart, p.wsl, p.docker, p.powershell, p.pwsh, p.npm, p.pip, p.cargo, p.nuget, p.git,
        p.vscode, p.schtasks, p.sc, p.wevtutil,
    ]
}

/// The tools described by the probes, in catalog order.
pub open spec fn tools_from(p: ToolProbes) -> Seq<ToolView> {
    Seq::new(
        14,
        |k: int|
            tool_view(catalog()[k].0, catalog()[k].1, catalog()[k].2, catalog()[k].3, probe_seq(p)[k]),
    )
}

/// The first tool of that name.
pub open spec fn find_tool(ts: Seq<ToolView>, n: Seq<char>) -> Option<ToolView>
    decreases ts.len(),
{
    if ts.len() == 0 {
        None
    } else if ts[0].name == n {
        Some(ts[0])
    } else {
        find_tool(ts.drop_first(), n)
    }
}

/// The required tools that are missing, in order.
pub open spec fn missing_required(ts: Seq<ToolView>) -> Seq<ToolView> {
    ts.filter(|t: ToolView| t.required && !t.available)
}

/// The optional tools that are available, in order.
pub open spec fn available_optional(ts: Seq<ToolView>) -> Seq<ToolView> {
    ts.filter(|t: ToolView| !t.required && t.available)
}

/// The four-part file version of a `VS_FIXEDFILEINFO` with the documented
/// signature, `major.minor.build.revision`.
pub open spec fn file_version_spec(signature: u32, ms: u32, ls: u32) -> Option<Seq<char>> {
    if signature != 0xFEEF04BD {
        None
    } else {
        Some(decimal((ms / 0x10000) as nat) + seq!['.'] + decimal((ms % 0x10000) as nat) + seq!['.']
            + decimal((ls / 0x10000) as nat) + seq!['.'] + decimal((ls % 0x10000) as nat))
    }
}

// ---------------------------------------------------------------------------
// Executable code
// ---------------------------------------------------------------------------

/// The file version of a `VS_FIXEDFILEINFO` block: none unless its
/// signature is `0xFEEF04BD`.
pub fn file_version_text(signature: u32, ms: u32, ls: u32) -> (r: Option<String>)
    ensures
        opt_text(r) == file_version_spec(signature, ms, ls),
{
    if signature != 0xFEEF04BD {
        return None;
    }
    let mut s = String::new();
    push_decimal(&mut s, (ms / 0x10000) as u64);
    push_char(&mut s, '.');
    push_decimal(&mut s, (ms % 0x10000) as u64);
    push_char(&mut s, '.');
    push_decimal(&mut s, (ls / 0x10000) as u64);
    push_char(&mut s, '.');
    push_decimal(&mut s, (ls % 0x10000) as u64);
    assert(s@ =~= file_version_spec(signature, ms, ls).unwrap());
    Some(s)
}

/// `v` with ASCII capitals made small.
fn fold_case_chars(v: &Vec<char>) -> (r: Vec<char>)
    ensures
        r@ == fold_case(v@),
{
    let mut r: Vec<char> = Vec::new();
    let mut i: usize = 0;
    while i < v.len()
        invariant
            i <= v@.len(),
            r@ == fold_case(v@.subrange(0, i as int)),
        decreases v@.len() - i,
    {
        let c = v[i];
        let d = if 'A' <= c && c <= 'Z' {
            char_plus_32(c)
        } else {
            c
        };
        r.push(d);
        i += 1;
        assert(r@ =~= fold_case(v@.subrange(0, i as int)));
    }
    assert(v@.subrange(0, v@.len() as int) =~= v@);
    r
}

/// The small letter of an ASCII capital.
fn char_plus_32(c: char) -> (d: char)
    requires
        'A' <= c && c <= 'Z',
    ensures
        d == ((c as nat) + 32) as char,
{
    let b: u8 = c as u8;
    (b + 32) as char
}

/// A copy of an optional string.
fn copy_opt(o: &Option<String>) -> (r: Option<String>)
    ensures
        opt_text(r) == opt_text(*o),
{
    match o {
        Some(s) => Some(s.clone()),
        None => None,
    }
}

impl ToolDetector {
    /// The detected tools, in catalog order.
    pub closed spec fn entries(&self) -> Seq<ToolView> {
        self.tools@.map_values(|t: ToolInfo| t@)
    }

    /// The version of a tool from what was found for it.
    fn version_of(source: VersionSource, output: &Option<String>) -> (r: Option<String>)
        ensures
            opt_text(r) == version_from(source, opt_text(*output)),
    {
        match source {
            VersionSource::FileVersion => copy_opt(output),
            VersionSource::Trimmed => match output {
                Some(o) => Some(string_of(&trim_chars(&chars_of(o.as_str())))),
                None => None,
            },
            VersionSource::FirstLine => match output {
                Some(o) => {
                    let ls = lines_chars(&chars_of(o.as_str()));
                    if ls.len() > 0 {
                        assert(views(ls@)[0] == ls@[0]@);
                        Some(string_of(&trim_chars(&ls[0])))
                    } else {
                        None
                    }
                },
                None => None,
            },
            VersionSource::NugetBanner => match output {
                Some(o) => Self::parse_nuget_version(o.as_str()),
                None => None,
            },
            VersionSource::Builtin => {
                let v = to_owned("5.1");
                Some(v)
            },
            VersionSource::NoVersion => None,
        }
    }

    /// The information about one tool.
    fn make_tool(
        name: &str,
        required: bool,
        description: &str,
        source: VersionSource,
        probe: &ToolProbe,
    ) -> (t: ToolInfo)
        ensures
            t@ == tool_view(name@, required, description@, source, *probe),
    {
        let available = probe.path.is_some();
        let version = if available {
            Self::version_of(source, &probe.output)
        } else {
            None
        };
        ToolInfo {
            name: to_owned(name),
            version,
            path: copy_opt(&probe.path),
            available,
            required,
            description: to_owned(description),
        }
    }

    /// The tools from what probing found; fails only when diskpart was found
    /// and its version resource could not be read.
    pub fn new(probes: &ToolProbes) -> (r: Result<Self, ToolError>)
        ensures
            probes.diskpart.path is Some && probes.diskpart_version_failed ==> r
                == Err::<Self, ToolError>(ToolError::VersionInfoUnreadable),
            !(probes.diskpart.path is Some && probes.diskpart_version_failed) ==> (r matches Ok(d)
                && d.entries() == tools_from(*probes)),
    {
        if probes.diskpart.path.is_some() && probes.diskpart_version_failed {
            return Err(ToolError::VersionInfoUnreadable);
        }
        proof {
            reveal_strlit("diskpart");
            reveal_strlit("Disk partition management tool");
        }
        let mut tools: Vec<ToolInfo> = Vec::new();
        tools.push(Self::make_tool("diskpart", true, "Disk partition management tool", VersionSource::FileVersion, &probes.diskpart));
        tools.push(Self::make_tool("wsl", false, "Windows Subsystem for Linux", VersionSource::Trimmed, &probes.wsl));
        tools.push(Self::make_tool("docker", false, "Docker container platform", VersionSource::Trimmed, &probes.docker));
        tools.push(Self::make_tool("powershell", true, "Windows PowerShell", VersionSource::Builtin, &probes.powershell));
        tools.push(Self::make_tool("pwsh", false, "PowerShell 7+", VersionSource::Trimmed, &probes.pwsh));
        tools.push(Self::make_tool("npm", false, "Node.js package manager", VersionSource::Trimmed, &probes.npm));
        tools.push(Self::make_tool("pip", false, "Python package manager", VersionSource::Trimmed, &probes.pip));
        tools.push(Self::make_tool("cargo", false, "Rust package manager", VersionSource::Trimmed, &probes.cargo));
        tools.push(Self::make_tool("nuget", false, ".NET package manager", VersionSource::NugetBanner, &probes.nuget));
        tools.push(Self::make_tool("git", false, "Git version control", VersionSource::Trimmed, &probes.git));
        tools.push(Self::make_tool("vscode", false, "Visual Studio Code", VersionSource::FirstLine, &probes.vscode));
        tools.push(Self::make_tool("schtasks", false, "Task scheduler utility", VersionSource::NoVersion, &probes.schtasks));
        tools.push(Self::make_tool("sc", false, "Service control utility", VersionSource::NoVersion, &probes.sc));
        tools.push(Self::make_tool("wevtutil", false, "Windows Event Log utility", VersionSource::NoVersion, &probes.wevtutil));
        let d = ToolDetector { tools };
        assert(d.entries() =~= tools_from(*probes));
        Ok(d)
    }

    /// The version in a NuGet CLI banner: on the first line (trimmed) that
    /// holds `NuGet Version:` (in any ASCII case), the first word after it.
    pub fn parse_nuget_version(banner: &str) -> (r: Option<String>)
        ensures
            opt_text(r) == nuget_version_in(lines_of(banner@)),
    {
        let ls = lines_chars(&chars_of(banner));
        let marker = chars_of("nuget version:");
        proof {
            reveal_strlit("nuget version:");
        }
        let ghost all = views(ls@);
        let mut i: usize = 0;
        assert(all.subrange(0, all.len() as int) =~= all);
        while i < ls.len()
            invariant
                i <= ls@.len(),
                all == views(ls@),
                all == lines_of(banner@),
                marker@ == nuget_marker(),
                nuget_marker().len() == 14,
                nuget_version_in(all) == nuget_version_in(all.subrange(i as int, all.len() as int)),
            decreases ls@.len() - i,
        {
            let ghost rest = all.subrange(i as int, all.len() as int);
            assert(rest[0] == ls@[i as int]@);
            assert(rest.drop_first() =~= all.subrange(i + 1, all.len() as int));
            let l = trim_chars(&ls[i]);
            let f = fold_case_chars(&l);
            match find(&f, &marker) {
                Some(k) => {
                    proof {
                        assert(is_first_occurrence(f@, nuget_marker(), k as int));
                        let c = choose|j: int| is_first_occurrence(f@, nuget_marker(), j);
                        assert(is_first_occurrence(f@, nuget_marker(), c));
                        if c < k {
                            assert(!crate::text::occurs_at(f@, nuget_marker(), c));
                        }
                        if k < c {
                            assert(!crate::text::occurs_at(f@, nuget_marker(), k as int));
                        }
                        assert(c == k);
                    }
                    assert(f@.len() == l@.len());
                    assert(nuget_marker().len() == 14);
                    let n = l.len();
                    assert(k + 14 <= n);
                    let after = crate::text::copy_range(&l, k + 14, n);
                    let w = words_chars(&trim_chars(&after));
                    if w.len() == 0 {
                        return None;
                    }
                    assert(views(w@)[0] == w@[0]@);
                    return Some(string_of(&w[0]));
                },
                None => {},
            }
            i += 1;
        }
        None
    }

    /// All detected tools, in catalog order.
    pub fn get_tools(&self) -> (r: &Vec<ToolInfo>)
        ensures
            r@.map_values(|t: ToolInfo| t@) == self.entries(),
    {
        &self.tools
    }

    /// The tool of that name.
    pub fn get_tool(&self, name: &str) -> (r: Option<&ToolInfo>)
        ensures
            match r {
                Some(t) => find_tool(self.entries(), name@) == Some(t@),
                None => find_tool(self.entries(), name@) is None,
            },
    {
        let ghost es = self.entries();
        let mut i: usize = 0;
        assert(es.subrange(0, es.len() as int) =~= es);
        while i < self.tools.len()
            invariant
                i <= self.tools@.len(),
                es == self.tools@.map_values(|t: ToolInfo| t@),
                find_tool(es, name@) == find_tool(es.subrange(i as int, es.len() as int), name@),
            decreases self.tools@.len() - i,
        {
            let ghost rest = es.subrange(i as int, es.len() as int);
            assert(rest[0] == self.tools@[i as int]@);
            assert(rest.drop_first() =~= es.subrange(i + 1, es.len() as int));
            if str_eq(self.tools[i].name.as_str(), name) {
                return Some(&self.tools[i]);
            }
            i += 1;
        }
        None
    }

    /// Whether the tool of that name is available.
    pub fn is_available(&self, name: &str) -> (b: bool)
        ensures
            b == (find_tool(self.entries(), name@) matches Some(t) && t.available),
    {
        match self.get_tool(name) {
            Some(t) => t.available,
            None => false,
        }
    }

    /// The required tools that are missing, in order.
    pub fn get_missing_required(&self) -> (r: Vec<&ToolInfo>)
        ensures
            r@.map_values(|t: &ToolInfo| t@) == missing_required(self.entries()),
    {
        let ghost es = self.entries();
        let mut out: Vec<&ToolInfo> = Vec::new();
        let mut i: usize = 0;
        assert(missing_required(es.subrange(0, 0)) =~= Seq::<ToolView>::empty());
        while i < self.tools.len()
            invariant
                i <= self.tools@.len(),
                es == self.tools@.map_values(|t: ToolInfo| t@),
                out@.map_values(|t: &ToolInfo| t@) == missing_required(es.subrange(0, i as int)),
            decreases self.tools@.len() - i,
        {
            let ghost before = out@.map_values(|t: &ToolInfo| t@);
            assert(es.subrange(0, i + 1).drop_last() =~= es.subrange(0, i as int));
            assert(es.subrange(0, i + 1).last() == self.tools@[i as int]@);
            proof {
                reveal(Seq::filter);
            }
            if self.tools[i].required && !self.tools[i].available {
                out.push(&self.tools[i]);
                assert(out@.map_values(|t: &ToolInfo| t@) =~= before.push(self.tools@[i as int]@));
            }
            i += 1;
        }
        assert(es.subrange(0, es.len() as int) =~= es);
        out
    }

    /// The optional tools that are available, in order.
    pub fn get_available_optional(&self) -> (r: Vec<&ToolInfo>)
        ensures
            r@.map_values(|t: &ToolInfo| t@) == available_optional(self.entries()),
    {
        let ghost es = self.entries();
        let mut out: Vec<&ToolInfo> = Vec::new();
        let mut i: usize = 0;
        assert(available_optional(es.subrange(0, 0)) =~= Seq::<ToolView>::empty());
        while i < self.tools.len()
            invariant
                i <= self.tools@.len(),
                es == self.tools@.map_values(|t: ToolInfo| t@),
                out@.map_values(|t: &ToolInfo| t@) == available_optional(es.subrange(0, i as int)),
            decreases self.tools@.len() - i,
        {
            let ghost before = out@.map_values(|t: &ToolInfo| t@);
            assert(es.subrange(0, i + 1).drop_last() =~= es.subrange(0, i as int));
            assert(es.subrange(0, i + 1).last() == self.tools@[i as int]@);
            proof {
                reveal(Seq::filter);
            }
            if !self.tools[i].required && self.tools[i].available {
                out.push(&self.tools[i]);
                assert(out@.map_values(|t: &ToolInfo| t@) =~= before.push(self.tools@[i as int]@));
            }
            i += 1;
        }
        assert(es.subrange(0, es.len() as int) =~= es);
        out
    }
}


/// The detected tools, whatever probing found: the fourteen tools of the
/// catalog, in this order, of which only diskpart and PowerShell are
/// required; each is available exactly when its executable was found, and
/// then its path is reported.
pub proof fn law_tool_catalog(p: ToolProbes)
    ensures
        tools_from(p).map_values(|t: ToolView| (t.name, t.required)) == seq![
            ("diskpart"@, true),
            ("wsl"@, false),
            ("docker"@, false),
            ("powershell"@, true),
            ("pwsh"@, false),
            ("npm"@, false),
            ("pip"@, false),
            ("cargo"@, false),
            ("nuget"@, false),
            ("git"@, false),
            ("vscode"@, false),
            ("schtasks"@, false),
            ("sc"@, false),
            ("wevtutil"@, false)
        ],
        forall|k: int| 0 <= k < tools_from(p).len() ==> (#[trigger] tools_from(p)[k]).available == (tools_from(
            p,
        )[k].path is Some) && tools_from(p)[k].path == opt_text(probe_seq(p)[k].path),
{
    assert(tools_from(p).map_values(|t: ToolView| (t.name, t.required)) =~= seq![
        ("diskpart"@, true),
            ("wsl"@, false),
            ("docker"@, false),
            ("powershell"@, true),
            ("pwsh"@, false),
            ("npm"@, false),
            ("pip"@, false),
            ("cargo"@, false),
            ("nuget"@, false),
            ("git"@, false),
            ("vscode"@, false),
            ("schtasks"@, false),
            ("sc"@, false),
            ("wevtutil"@, false)
    ]);
}

proof fn lemma_missing_step(ts: Seq<ToolView>, n: int)
    requires
        0 < n <= ts.len(),
    ensures
        missing_required(ts.subrange(0, n)) == (if ts[n - 1].required && !ts[n - 1].available {
            missing_required(ts.subrange(0, n - 1)).push(ts[n - 1])
        } else {
            missing_required(ts.subrange(0, n - 1))
        }),
{
    reveal(Seq::filter);
    assert(ts.subrange(0, n).drop_last() =~= ts.subrange(0, n - 1));
}

/// The required tools that can be missing are diskpart and PowerShell
/// only: what `get_missing_required` gives for any detection is diskpart
/// when it was not found, then PowerShell when it was not found.
pub proof fn law_missing_required(p: ToolProbes)
    ensures
        missing_required(tools_from(p)) == (if p.diskpart.path is None {
            seq![tools_from(p)[0]]
        } else {
            Seq::empty()
        }) + (if p.powershell.path is None {
            seq![tools_from(p)[3]]
        } else {
            Seq::empty()
        }),
        missing_required(tools_from(p)).len() <= 2,
        forall|i: int| 0 <= i < missing_required(tools_from(p)).len() ==> (#[trigger] missing_required(tools_from(p))[i]).name == "diskpart"@
            || missing_required(tools_from(p))[i].name == "powershell"@,
{
    let ts = tools_from(p);
    reveal(Seq::filter);
    assert(missing_required(ts.subrange(0, 0)) =~= Seq::<ToolView>::empty());
    lemma_missing_step(ts, 1);
    lemma_missing_step(ts, 2);
    lemma_missing_step(ts, 3);
    lemma_missing_step(ts, 4);
    lemma_missing_step(ts, 5);
    lemma_missing_step(ts, 6);
    lemma_missing_step(ts, 7);
    lemma_missing_step(ts, 8);
    lemma_missing_step(ts, 9);
    lemma_missing_step(ts, 10);
    lemma_missing_step(ts, 11);
    lemma_missing_step(ts, 12);
    lemma_missing_step(ts, 13);
    lemma_missing_step(ts, 14);
    assert(ts.subrange(0, 14) =~= ts);
    let a: Seq<ToolView> = if p.diskpart.path is None { seq![ts[0]] } else { Seq::empty() };
    let b: Seq<ToolView> = if p.powershell.path is None { seq![ts[3]] } else { Seq::empty() };
    assert(missing_required(ts) =~= a + b);
}

} // verus!
