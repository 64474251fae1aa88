//! Paths and file patterns that the cleaner must never delete.
use vstd::prelude::*;
use crate::path::{file_name, file_name_of};
use crate::path_order::{path_starts_with, starts_with_path};
use crate::text::{
    chars_of, contains_seq, ends_with, has_prefix, has_suffix, lowercase, starts_with,
    str_contains, to_lower,
};

verus! {

/// Critical system paths that must never be deleted.
pub open spec fn never_delete_path_list() -> Seq<&'static str> {
    seq![
        r"C:\Windows",
        r"C:\Windows\System32",
        r"C:\Windows\SysWOW64",
        r"C:\Windows\System32\drivers",
        r"C:\Windows\System32\config",
        r"C:\Windows\System32\winevt",
        r"C:\Windows\System32\LogFiles",
        r"C:\Windows\System32\catroot",
        r"C:\Windows\System32\catroot2",
        r"C:\Windows\Microsoft.NET",
        r"C:\Windows\assembly",
        r"C:\Windows\servicing",
        r"C:\Windows\WinSxS",
        r"C:\Windows\SoftwareDistribution",
        r"C:\Windows\inf",
        r"C:\Windows\Installer",
        r"C:\Windows\Fonts",
        r"C:\Windows\resources",
        r"C:\Windows\addins",
        r"C:\Windows\PolicyDefinitions",
        r"C:\Windows\debug",
        r"C:\Windows\LiveKernelReports",
        r"C:\Windows\Logs",
        r"C:\Windows\Prefetch",
        r"C:\Windows\Repair",
        r"C:\Windows\Security",
        r"C:\Windows\SystemResources",
        r"C:\Program Files",
        r"C:\Program Files (x86)",
        r"C:\Program Files\Common Files",
        r"C:\Program Files (x86)\Common Files",
        r"C:\ProgramData",
        r"C:\ProgramData\Microsoft",
        r"C:\ProgramData\Package Cache",
        r"C:\Users\Default",
        r"C:\Users\Default User",
        r"C:\Users\Public",
        r"C:\Users\Public\Desktop",
        r"C:\Users\Public\Documents",
        r"C:\bootmgr",
        r"C:\BOOTNXT",
        r"C:\bootsect.bak",
        r"C:\EFI",
        r"C:\$Recycle.Bin",
        r"C:\System Volume Information",
        r"C:\Recovery",
        r"C:\pagefile.sys",
        r"C:\hiberfil.sys",
        r"C:\swapfile.sys",
        r"C:\Windows\System32\lxss",
        r"C:\ProgramData\Docker",
        r"C:\ProgramData\DockerDesktop",
        r"C:\Intel",
        r"C:\AMD",
        r"C:\NVIDIA",
        r"C:\ATI",
        r"C:\OEM",
        r"C:\OEMPartition",
        r"C:\Program Files\Microsoft Office",
        r"C:\Program Files (x86)\Microsoft Office",
        r"C:\Program Files\Microsoft Visual Studio",
        r"C:\Program Files (x86)\Microsoft Visual Studio",
        r"C:\Program Files (x86)\Common Files\Microsoft Shared\MSEnv",
        r"C:\Program Files\Microsoft SQL Server",
        r"C:\Program Files (x86)\Microsoft SQL Server"
    ]
}

/// File patterns that must never be deleted, outside the contexts that
/// `safe_context` allows.
pub open spec fn never_delete_pattern_list() -> Seq<&'static str> {
    seq![
        "*.sys",
        "*.dll",
        "*.exe",
        "*.com",
        "*.bat",
        "*.cmd",
        "*.ps1",
        "*.scr",
        "*.cpl",
        "*.msc",
        "*.msp",
        "*.msi",
        "*.msu",
        "*.cab",
        "*.psm1",
        "*.psd1",
        "*.ps1xml",
        "*.cdxml",
        "*.pssc",
        "*.diagcab",
        "*.efi",
        "*.bin",
        "*.vhd",
        "*.vhdx",
        "*.iso",
        "*.wim",
        "*.esd",
        "*.dmp",
        "*.hdmp",
        "*.mdmp"
    ]
}

/// The critical system paths, in the order in which they are checked.
pub fn never_delete_paths() -> (r: Vec<&'static str>)
    ensures
        r@ == never_delete_path_list(),
{
    vec![
        r"C:\Windows",
        r"C:\Windows\System32",
        r"C:\Windows\SysWOW64",
        r"C:\Windows\System32\drivers",
        r"C:\Windows\System32\config",
        r"C:\Windows\System32\winevt",
        r"C:\Windows\System32\LogFiles",
        r"C:\Windows\System32\catroot",
        r"C:\Windows\System32\catroot2",
        r"C:\Windows\Microsoft.NET",
        r"C:\Windows\assembly",
        r"C:\Windows\servicing",
        r"C:\Windows\WinSxS",
        r"C:\Windows\SoftwareDistribution",
        r"C:\Windows\inf",
        r"C:\Windows\Installer",
        r"C:\Windows\Fonts",
        r"C:\Windows\resources",
        r"C:\Windows\addins",
        r"C:\Windows\PolicyDefinitions",
        r"C:\Windows\debug",
        r"C:\Windows\LiveKernelReports",
        r"C:\Windows\Logs",
        r"C:\Windows\Prefetch",
        r"C:\Windows\Repair",
        r"C:\Windows\Security",
        r"C:\Windows\SystemResources",
        r"C:\Program Files",
        r"C:\Program Files (x86)",
        r"C:\Program Files\Common Files",
        r"C:\Program Files (x86)\Common Files",
        r"C:\ProgramData",
        r"C:\ProgramData\Microsoft",
        r"C:\ProgramData\Package Cache",
        r"C:\Users\Default",
        r"C:\Users\Default User",
        r"C:\Users\Public",
        r"C:\Users\Public\Desktop",
        r"C:\Users\Public\Documents",
        r"C:\bootmgr",
        r"C:\BOOTNXT",
        r"C:\bootsect.bak",
        r"C:\EFI",
        r"C:\$Recycle.Bin",
        r"C:\System Volume Information",
        r"C:\Recovery",
        r"C:\pagefile.sys",
        r"C:\hiberfil.sys",
        r"C:\swapfile.sys",
        r"C:\Windows\System32\lxss",
        r"C:\ProgramData\Docker",
        r"C:\ProgramData\DockerDesktop",
        r"C:\Intel",
        r"C:\AMD",
        r"C:\NVIDIA",
        r"C:\ATI",
        r"C:\OEM",
        r"C:\OEMPartition",
        r"C:\Program Files\Microsoft Office",
        r"C:\Program Files (x86)\Microsoft Office",
        r"C:\Program Files\Microsoft Visual Studio",
        r"C:\Program Files (x86)\Microsoft Visual Studio",
        r"C:\Program Files (x86)\Common Files\Microsoft Shared\MSEnv",
        r"C:\Program Files\Microsoft SQL Server",
        r"C:\Program Files (x86)\Microsoft SQL Server"
    ]
}

/// The protected file patterns, in the order in which they are checked.
pub fn never_delete_patterns() -> (r: Vec<&'static str>)
    ensures
        r@ == never_delete_pattern_list(),
{
    vec![
        "*.sys",
        "*.dll",
        "*.exe",
        "*.com",
        "*.bat",
        "*.cmd",
        "*.ps1",
        "*.scr",
        "*.cpl",
        "*.msc",
        "*.msp",
        "*.msi",
        "*.msu",
        "*.cab",
        "*.psm1",
        "*.psd1",
        "*.ps1xml",
        "*.cdxml",
        "*.pssc",
        "*.diagcab",
        "*.efi",
        "*.bin",
        "*.vhd",
        "*.vhdx",
        "*.iso",
        "*.wim",
        "*.esd",
        "*.dmp",
        "*.hdmp",
        "*.mdmp"
    ]
}

/// A file name matches a pattern: for `*.ext`, its lowercase form ends with
/// the lowercase `.ext` (the dot included, as the glob asks); otherwise the
/// lowercase forms are equal.
pub open spec fn pattern_matches(name: Seq<char>, pattern: Seq<char>) -> bool {
    if has_prefix(pattern, seq!['*', '.']) {
        has_suffix(lowercase(name), lowercase(pattern.subrange(1, pattern.len() as int)))
    } else {
        lowercase(name) == lowercase(pattern)
    }
}

/// The lowercase path lies under a temporary or cache folder.
pub open spec fn in_temp_or_cache(p: Seq<char>) -> bool {
    ||| contains_seq(p, r"\temp\"@)
    ||| contains_seq(p, r"\tmp\"@)
    ||| contains_seq(p, r"\cache\"@)
    ||| contains_seq(p, r"\caches\"@)
}

/// A protected file is safe to delete in this context: executables under
/// temporary, cache, package-manager, `node_modules` or build output folders,
/// libraries under temporary, cache or package-manager folders, and logs.
pub open spec fn safe_context(path: Seq<char>, file: Seq<char>) -> bool {
    let p = lowercase(path);
    let f = lowercase(file);
    ||| has_suffix(f, ".exe"@) && (in_temp_or_cache(p) || contains_seq(p, r"\npm\"@)
        || contains_seq(p, r"\pip\"@) || contains_seq(p, r"\cargo\"@) || contains_seq(
        p,
        r"\node_modules\"@,
    ) || contains_seq(p, r"\target\debug\"@) || contains_seq(p, r"\target\release\"@))
    ||| has_suffix(f, ".dll"@) && (in_temp_or_cache(p) || contains_seq(p, r"\npm\"@)
        || contains_seq(p, r"\pip\"@))
    ||| has_suffix(f, ".log"@)
}

/// The lowercase path starts with the lowercase form of a critical path.
pub open spec fn under_critical_path(path: Seq<char>) -> bool {
    exists|i: int|
        0 <= i < never_delete_path_list().len() && has_prefix(
            lowercase(path),
            lowercase(#[trigger] never_delete_path_list()[i]@),
        )
}

/// The path is an ancestor of (or equal to) a critical path.
pub open spec fn ancestor_of_critical_path(path: Seq<char>) -> bool {
    exists|i: int|
        0 <= i < never_delete_path_list().len() && path_starts_with(
            #[trigger] never_delete_path_list()[i]@,
            path,
        )
}

/// The file name of the path matches a protected pattern outside a safe
/// context.
pub open spec fn protected_file(path: Seq<char>) -> bool {
    match file_name(path) {
        Some(f) => !safe_context(path, f) && exists|j: int|
            0 <= j < never_delete_pattern_list().len() && pattern_matches(
                f,
                #[trigger] never_delete_pattern_list()[j]@,
            ),
        None => false,
    }
}

/// The path must never be deleted.
pub open spec fn never_delete(path: Seq<char>) -> bool {
    under_critical_path(path) || ancestor_of_critical_path(path) || protected_file(path)
}

/// Whether a file name matches a protected pattern.
pub fn matches_pattern(name: &str, pattern: &str) -> (b: bool)
    ensures
        b == pattern_matches(name@, pattern@),
{
    let pv = chars_of(pattern);
    let mut star_dot: Vec<char> = Vec::new();
    star_dot.push('*');
    star_dot.push('.');
    assert(star_dot@ =~= seq!['*', '.']);
    if starts_with(&pv, &star_dot) {
        let ext = crate::text::string_of(&crate::text::copy_range(&pv, 1, pv.len()));
        let ln = chars_of(&to_lower(name));
        let le = chars_of(&to_lower(&ext));
        ends_with(&ln, &le)
    } else {
        let ln = chars_of(&to_lower(name));
        let lp = chars_of(&to_lower(pattern));
        crate::path::vec_eq(&ln, &lp)
    }
}

/// Whether the lowercase path lies under a temporary or cache folder.
fn in_temp_or_cache_exec(p: &str) -> (b: bool)
    ensures
        b == in_temp_or_cache(p@),
{
    str_contains(p, r"\temp\") || str_contains(p, r"\tmp\") || str_contains(p, r"\cache\")
        || str_contains(p, r"\caches\")
}

/// Whether a potentially dangerous file is safe to delete in its context.
pub fn is_safe_context(path: &str, file_name: &str) -> (b: bool)
    ensures
        b == safe_context(path@, file_name@),
{
    let p = to_lower(path);
    let f = to_lower(file_name);
    if crate::text::str_ends_with(&f, ".exe") {
        if in_temp_or_cache_exec(&p) || str_contains(&p, r"\npm\") || str_contains(&p, r"\pip\")
            || str_contains(&p, r"\cargo\") || str_contains(&p, r"\node_modules\")
            || str_contains(&p, r"\target\debug\") || str_contains(&p, r"\target\release\") {
            return true;
        }
    }
    if crate::text::str_ends_with(&f, ".dll") {
        if in_temp_or_cache_exec(&p) || str_contains(&p, r"\npm\") || str_contains(&p, r"\pip\") {
            return true;
        }
    }
    crate::text::str_ends_with(&f, ".log")
}

/// Whether a path must never be deleted: it lies under a critical system
/// path (compared in lowercase), it is an ancestor of one, or its file name
/// matches a protected pattern outside a safe context.
pub fn should_never_delete(path: &str) -> (b: bool)
    ensures
        b == never_delete(path@),
{
    let list = never_delete_paths();
    let lp = chars_of(&to_lower(path));
    let mut i: usize = 0;
    while i < list.len()
        invariant
            i <= list.len(),
            list@ == never_delete_path_list(),
            lp@ == lowercase(path@),
            forall|j: int| 0 <= j < i ==> !has_prefix(lowercase(path@), lowercase(#[trigger] list@[j]@)),
        decreases list.len() - i,
    {
        let ln = chars_of(&to_lower(list[i]));
        if starts_with(&lp, &ln) {
            return true;
        }
        i += 1;
    }
    let mut i: usize = 0;
    while i < list.len()
        invariant
            i <= list.len(),
            list@ == never_delete_path_list(),
            !under_critical_path(path@),
            forall|j: int| 0 <= j < i ==> !path_starts_with(#[trigger] list@[j]@, path@),
        decreases list.len() - i,
    {
        if starts_with_path(list[i], path) {
            return true;
        }
        i += 1;
    }
    match file_name_of(path) {
        None => false,
        Some(f) => {
            let pats = never_delete_patterns();
            let safe = is_safe_context(path, &f);
            let mut j: usize = 0;
            while j < pats.len()
                invariant
                    j <= pats.len(),
                    pats@ == never_delete_pattern_list(),
                    file_name(path@) == Some(f@),
                    safe == safe_context(path@, f@),
                    !under_critical_path(path@),
                    !ancestor_of_critical_path(path@),
                    forall|k: int| 0 <= k < j ==> !(pattern_matches(f@, #[trigger] pats@[k]@) && !safe),
                decreases pats.len() - j,
            {
                if matches_pattern(&f, pats[j]) && !safe {
                    return true;
                }
                j += 1;
            }
            false
        }
    }
}

/// Every critical system path, and every path whose lowercase text begins
/// with the lowercase text of one, is protected.
pub proof fn law_critical_paths_protected(i: int, path: Seq<char>)
    requires
        0 <= i < never_delete_path_list().len(),
        has_prefix(lowercase(path), lowercase(never_delete_path_list()[i]@)),
    ensures
        never_delete(path),
        never_delete(never_delete_path_list()[i]@),
{
    let c = lowercase(never_delete_path_list()[i]@);
    assert(c.subrange(0, c.len() as int) =~= c);
}

/// Every path whose lowercase form starts with the lowercase form of one of
/// the critical system paths (the Windows folder and its system folders,
/// the program folders, `ProgramData`, the default and public profiles, the
/// boot files, the recovery and vendor folders) must never be deleted: the
/// critical path itself and everything under it.
pub proof fn law_named_critical_paths_protected()
    ensures
        forall|p: Seq<char>| has_prefix(lowercase(p), lowercase(r"C:\Windows"@)) ==> #[trigger] never_delete(p),
        forall|p: Seq<char>| has_prefix(lowercase(p), lowercase(r"C:\Windows\System32"@)) ==> #[trigger] never_delete(p),
        forall|p: Seq<char>| has_prefix(lowercase(p), lowercase(r"C:\Windows\SysWOW64"@)) ==> #[trigger] never_delete(p),
        forall|p: Seq<char>| has_prefix(lowercase(p), lowercase(r"C:\Windows\System32\drivers"@)) ==> #[trigger] never_delete(p),
        forall|p: Seq<char>| has_prefix(lowercase(p), lowercase(r"C:\Windows\System32\config"@)) ==> #[trigger] never_delete(p),
        forall|p: Seq<char>| has_prefix(lowercase(p), lowercase(r"C:\Windows\System32\winevt"@)) ==> #[trigger] never_delete(p),
        forall|p: Seq<char>| has_prefix(lowercase(p), lowercase(r"C:\Windows\System32\LogFiles"@)) ==> #[trigger] never_delete(p),
        forall|p: Seq<char>| has_prefix(lowercase(p), lowercase(r"C:\Windows\System32\catroot"@)) ==> #[trigger] never_delete(p),
        forall|p: Seq<char>| has_prefix(lowercase(p), lowercase(r"C:\Windows\System32\catroot2"@)) ==> #[trigger] never_delete(p),
        forall|p: Seq<char>| has_prefix(lowercase(p), lowercase(r"C:\Windows\Microsoft.NET"@)) ==> #[trigger] never_delete(p),
        forall|p: Seq<char>| has_prefix(lowercase(p), lowercase(r"C:\Windows\assembly"@)) ==> #[trigger] never_delete(p),
        forall|p: Seq<char>| has_prefix(lowercase(p), lowercase(r"C:\Windows\servicing"@)) ==> #[trigger] never_delete(p),
        forall|p: Seq<char>| has_prefix(lowercase(p), lowercase(r"C:\Windows\WinSxS"@)) ==> #[trigger] never_delete(p),
        forall|p: Seq<char>| has_prefix(lowercase(p), lowercase(r"C:\Windows\SoftwareDistribution"@)) ==> #[trigger] never_delete(p),
        forall|p: Seq<char>| has_prefix(lowercase(p), lowercase(r"C:\Windows\inf"@)) ==> #[trigger] never_delete(p),
        forall|p: Seq<char>| has_prefix(lowercase(p), lowercase(r"C:\Windows\Installer"@)) ==> #[trigger] never_delete(p),
        forall|p: Seq<char>| has_prefix(lowercase(p), lowercase(r"C:\Windows\Fonts"@)) ==> #[trigger] never_delete(p),
        forall|p: Seq<char>| has_prefix(lowercase(p), lowercase(r"C:\Windows\resources"@)) ==> #[trigger] never_delete(p),
        forall|p: Seq<char>| has_prefix(lowercase(p), lowercase(r"C:\Windows\addins"@)) ==> #[trigger] never_delete(p),
        forall|p: Seq<char>| has_prefix(lowercase(p), lowercase(r"C:\Windows\PolicyDefinitions"@)) ==> #[trigger] never_delete(p),
        forall|p: Seq<char>| has_prefix(lowercase(p), lowercase(r"C:\Windows\debug"@)) ==> #[trigger] never_delete(p),
        forall|p: Seq<char>| has_prefix(lowercase(p), lowercase(r"C:\Windows\LiveKernelReports"@)) ==> #[trigger] never_delete(p),
        forall|p: Seq<char>| has_prefix(lowercase(p), lowercase(r"C:\Windows\Logs"@)) ==> #[trigger] never_delete(p),
        forall|p: Seq<char>| has_prefix(lowercase(p), lowercase(r"C:\Windows\Prefetch"@)) ==> #[trigger] never_delete(p),
        forall|p: Seq<char>| has_prefix(lowercase(p), lowercase(r"C:\Windows\Repair"@)) ==> #[trigger] never_delete(p),
        forall|p: Seq<char>| has_prefix(lowercase(p), lowercase(r"C:\Windows\Security"@)) ==> #[trigger] never_delete(p),
        forall|p: Seq<char>| has_prefix(lowercase(p), lowercase(r"C:\Windows\SystemResources"@)) ==> #[trigger] never_delete(p),
        forall|p: Seq<char>| has_prefix(lowercase(p), lowercase(r"C:\Program Files"@)) ==> #[trigger] never_delete(p),
        forall|p: Seq<char>| has_prefix(lowercase(p), lowercase(r"C:\Program Files (x86)"@)) ==> #[trigger] never_delete(p),
        forall|p: Seq<char>| has_prefix(lowercase(p), lowercase(r"C:\Program Files\Common Files"@)) ==> #[trigger] never_delete(p),
        forall|p: Seq<char>| has_prefix(lowercase(p), lowercase(r"C:\Program Files (x86)\Common Files"@)) ==> #[trigger] never_delete(p),
        forall|p: Seq<char>| has_prefix(lowercase(p), lowercase(r"C:\ProgramData"@)) ==> #[trigger] never_delete(p),
        forall|p: Seq<char>| has_prefix(lowercase(p), lowercase(r"C:\ProgramData\Microsoft"@)) ==> #[trigger] never_delete(p),
        forall|p: Seq<char>| has_prefix(lowercase(p), lowercase(r"C:\ProgramData\Package Cache"@)) ==> #[trigger] never_delete(p),
        forall|p: Seq<char>| has_prefix(lowercase(p), lowercase(r"C:\Users\Default"@)) ==> #[trigger] never_delete(p),
        forall|p: Seq<char>| has_prefix(lowercase(p), lowercase(r"C:\Users\Default User"@)) ==> #[trigger] never_delete(p),
        forall|p: Seq<char>| has_prefix(lowercase(p), lowercase(r"C:\Users\Public"@)) ==> #[trigger] never_delete(p),
        forall|p: Seq<char>| has_prefix(lowercase(p), lowercase(r"C:\Users\Public\Desktop"@)) ==> #[trigger] never_delete(p),
        forall|p: Seq<char>| has_prefix(lowercase(p), lowercase(r"C:\Users\Public\Documents"@)) ==> #[trigger] never_delete(p),
        forall|p: Seq<char>| has_prefix(lowercase(p), lowercase(r"C:\bootmgr"@)) ==> #[trigger] never_delete(p),
        forall|p: Seq<char>| has_prefix(lowercase(p), lowercase(r"C:\BOOTNXT"@)) ==> #[trigger] never_delete(p),
        forall|p: Seq<char>| has_prefix(lowercase(p), lowercase(r"C:\bootsect.bak"@)) ==> #[trigger] never_delete(p),
        forall|p: Seq<char>| has_prefix(lowercase(p), lowercase(r"C:\EFI"@)) ==> #[trigger] never_delete(p),
        forall|p: Seq<char>| has_prefix(lowercase(p), lowercase(r"C:\$Recycle.Bin"@)) ==> #[trigger] never_delete(p),
        forall|p: Seq<char>| has_prefix(lowercase(p), lowercase(r"C:\System Volume Information"@)) ==> #[trigger] never_delete(p),
        forall|p: Seq<char>| has_prefix(lowercase(p), lowercase(r"C:\Recovery"@)) ==> #[trigger] never_delete(p),
        forall|p: Seq<char>| has_prefix(lowercase(p), lowercase(r"C:\pagefile.sys"@)) ==> #[trigger] never_delete(p),
        forall|p: Seq<char>| has_prefix(lowercase(p), lowercase(r"C:\hiberfil.sys"@)) ==> #[trigger] never_delete(p),
        forall|p: Seq<char>| has_prefix(lowercase(p), lowercase(r"C:\swapfile.sys"@)) ==> #[trigger] never_delete(p),
        forall|p: Seq<char>| has_prefix(lowercase(p), lowercase(r"C:\Windows\System32\lxss"@)) ==> #[trigger] never_delete(p),
        forall|p: Seq<char>| has_prefix(lowercase(p), lowercase(r"C:\ProgramData\Docker"@)) ==> #[trigger] never_delete(p),
        forall|p: Seq<char>| has_prefix(lowercase(p), lowercase(r"C:\ProgramData\DockerDesktop"@)) ==> #[trigger] never_delete(p),
        forall|p: Seq<char>| has_prefix(lowercase(p), lowercase(r"C:\Intel"@)) ==> #[trigger] never_delete(p),
        forall|p: Seq<char>| has_prefix(lowercase(p), lowercase(r"C:\AMD"@)) ==> #[trigger] never_delete(p),
        forall|p: Seq<char>| has_prefix(lowercase(p), lowercase(r"C:\NVIDIA"@)) ==> #[trigger] never_delete(p),
        forall|p: Seq<char>| has_prefix(lowercase(p), lowercase(r"C:\ATI"@)) ==> #[trigger] never_delete(p),
        forall|p: Seq<char>| has_prefix(lowercase(p), lowercase(r"C:\OEM"@)) ==> #[trigger] never_delete(p),
        forall|p: Seq<char>| has_prefix(lowercase(p), lowercase(r"C:\OEMPartition"@)) ==> #[trigger] never_delete(p),
        forall|p: Seq<char>| has_prefix(lowercase(p), lowercase(r"C:\Program Files\Microsoft Office"@)) ==> #[trigger] never_delete(p),
        forall|p: Seq<char>| has_prefix(lowercase(p), lowercase(r"C:\Program Files (x86)\Microsoft Office"@)) ==> #[trigger] never_delete(p),
        forall|p: Seq<char>| has_prefix(lowercase(p), lowercase(r"C:\Program Files\Microsoft Visual Studio"@)) ==> #[trigger] never_delete(p),
        forall|p: Seq<char>| has_prefix(lowercase(p), lowercase(r"C:\Program Files (x86)\Microsoft Visual Studio"@)) ==> #[trigger] never_delete(p),
        forall|p: Seq<char>| has_prefix(lowercase(p), lowercase(r"C:\Program Files (x86)\Common Files\Microsoft Shared\MSEnv"@)) ==> #[trigger] never_delete(p),
        forall|p: Seq<char>| has_prefix(lowercase(p), lowercase(r"C:\Program Files\Microsoft SQL Server"@)) ==> #[trigger] never_delete(p),
        forall|p: Seq<char>| has_prefix(lowercase(p), lowercase(r"C:\Program Files (x86)\Microsoft SQL Server"@)) ==> #[trigger] never_delete(p),
{
    let list = never_delete_path_list();
    assert forall|p: Seq<char>| has_prefix(lowercase(p), lowercase(r"C:\Windows"@)) implies #[trigger] never_delete(p) by {
        assert(list[0]@ == r"C:\Windows"@);
    }
    assert forall|p: Seq<char>| has_prefix(lowercase(p), lowercase(r"C:\Windows\System32"@)) implies #[trigger] never_delete(p) by {
        assert(list[1]@ == r"C:\Windows\System32"@);
    }
    assert forall|p: Seq<char>| has_prefix(lowercase(p), lowercase(r"C:\Windows\SysWOW64"@)) implies #[trigger] never_delete(p) by {
        assert(list[2]@ == r"C:\Windows\SysWOW64"@);
    }
    assert forall|p: Seq<char>| has_prefix(lowercase(p), lowercase(r"C:\Windows\System32\drivers"@)) implies #[trigger] never_delete(p) by {
        assert(list[3]@ == r"C:\Windows\System32\drivers"@);
    }
    assert forall|p: Seq<char>| has_prefix(lowercase(p), lowercase(r"C:\Windows\System32\config"@)) implies #[trigger] never_delete(p) by {
        assert(list[4]@ == r"C:\Windows\System32\config"@);
    }
    assert forall|p: Seq<char>| has_prefix(lowercase(p), lowercase(r"C:\Windows\System32\winevt"@)) implies #[trigger] never_delete(p) by {
        assert(list[5]@ == r"C:\Windows\System32\winevt"@);
    }
    assert forall|p: Seq<char>| has_prefix(lowercase(p), lowercase(r"C:\Windows\System32\LogFiles"@)) implies #[trigger] never_delete(p) by {
        assert(list[6]@ == r"C:\Windows\System32\LogFiles"@);
    }
    assert forall|p: Seq<char>| has_prefix(lowercase(p), lowercase(r"C:\Windows\System32\catroot"@)) implies #[trigger] never_delete(p) by {
        assert(list[7]@ == r"C:\Windows\System32\catroot"@);
    }
    assert forall|p: Seq<char>| has_prefix(lowercase(p), lowercase(r"C:\Windows\System32\catroot2"@)) implies #[trigger] never_delete(p) by {
        assert(list[8]@ == r"C:\Windows\System32\catroot2"@);
    }
    assert forall|p: Seq<char>| has_prefix(lowercase(p), lowercase(r"C:\Windows\Microsoft.NET"@)) implies #[trigger] never_delete(p) by {
        assert(list[9]@ == r"C:\Windows\Microsoft.NET"@);
    }
    assert forall|p: Seq<char>| has_prefix(lowercase(p), lowercase(r"C:\Windows\assembly"@)) implies #[trigger] never_delete(p) by {
        assert(list[10]@ == r"C:\Windows\assembly"@);
    }
    assert forall|p: Seq<char>| has_prefix(lowercase(p), lowercase(r"C:\Windows\servicing"@)) implies #[trigger] never_delete(p) by {
        assert(list[11]@ == r"C:\Windows\servicing"@);
    }
    assert forall|p: Seq<char>| has_prefix(lowercase(p), lowercase(r"C:\Windows\WinSxS"@)) implies #[trigger] never_delete(p) by {
        assert(list[12]@ == r"C:\Windows\WinSxS"@);
    }
    assert forall|p: Seq<char>| has_prefix(lowercase(p), lowercase(r"C:\Windows\SoftwareDistribution"@)) implies #[trigger] never_delete(p) by {
        assert(list[13]@ == r"C:\Windows\SoftwareDistribution"@);
    }
    assert forall|p: Seq<char>| has_prefix(lowercase(p), lowercase(r"C:\Windows\inf"@)) implies #[trigger] never_delete(p) by {
        assert(list[14]@ == r"C:\Windows\inf"@);
    }
    assert forall|p: Seq<char>| has_prefix(lowercase(p), lowercase(r"C:\Windows\Installer"@)) implies #[trigger] never_delete(p) by {
        assert(list[15]@ == r"C:\Windows\Installer"@);
    }
    assert forall|p: Seq<char>| has_prefix(lowercase(p), lowercase(r"C:\Windows\Fonts"@)) implies #[trigger] never_delete(p) by {
        assert(list[16]@ == r"C:\Windows\Fonts"@);
    }
    assert forall|p: Seq<char>| has_prefix(lowercase(p), lowercase(r"C:\Windows\resources"@)) implies #[trigger] never_delete(p) by {
        assert(list[17]@ == r"C:\Windows\resources"@);
    }
    assert forall|p: Seq<char>| has_prefix(lowercase(p), lowercase(r"C:\Windows\addins"@)) implies #[trigger] never_delete(p) by {
        assert(list[18]@ == r"C:\Windows\addins"@);
    }
    assert forall|p: Seq<char>| has_prefix(lowercase(p), lowercase(r"C:\Windows\PolicyDefinitions"@)) implies #[trigger] never_delete(p) by {
        assert(list[19]@ == r"C:\Windows\PolicyDefinitions"@);
    }
    assert forall|p: Seq<char>| has_prefix(lowercase(p), lowercase(r"C:\Windows\debug"@)) implies #[trigger] never_delete(p) by {
        assert(list[20]@ == r"C:\Windows\debug"@);
    }
    assert forall|p: Seq<char>| has_prefix(lowercase(p), lowercase(r"C:\Windows\LiveKernelReports"@)) implies #[trigger] never_delete(p) by {
        assert(list[21]@ == r"C:\Windows\LiveKernelReports"@);
    }
    assert forall|p: Seq<char>| has_prefix(lowercase(p), lowercase(r"C:\Windows\Logs"@)) implies #[trigger] never_delete(p) by {
        assert(list[22]@ == r"C:\Windows\Logs"@);
    }
    assert forall|p: Seq<char>| has_prefix(lowercase(p), lowercase(r"C:\Windows\Prefetch"@)) implies #[trigger] never_delete(p) by {
        assert(list[23]@ == r"C:\Windows\Prefetch"@);
    }
    assert forall|p: Seq<char>| has_prefix(lowercase(p), lowercase(r"C:\Windows\Repair"@)) implies #[trigger] never_delete(p) by {
        assert(list[24]@ == r"C:\Windows\Repair"@);
    }
    assert forall|p: Seq<char>| has_prefix(lowercase(p), lowercase(r"C:\Windows\Security"@)) implies #[trigger] never_delete(p) by {
        assert(list[25]@ == r"C:\Windows\Security"@);
    }
    assert forall|p: Seq<char>| has_prefix(lowercase(p), lowercase(r"C:\Windows\SystemResources"@)) implies #[trigger] never_delete(p) by {
        assert(list[26]@ == r"C:\Windows\SystemResources"@);
    }
    assert forall|p: Seq<char>| has_prefix(lowercase(p), lowercase(r"C:\Program Files"@)) implies #[trigger] never_delete(p) by {
        assert(list[27]@ == r"C:\Program Files"@);
    }
    assert forall|p: Seq<char>| has_prefix(lowercase(p), lowercase(r"C:\Program Files (x86)"@)) implies #[trigger] never_delete(p) by {
        assert(list[28]@ == r"C:\Program Files (x86)"@);
    }
    assert forall|p: Seq<char>| has_prefix(lowercase(p), lowercase(r"C:\Program Files\Common Files"@)) implies #[trigger] never_delete(p) by {
        assert(list[29]@ == r"C:\Program Files\Common Files"@);
    }
    assert forall|p: Seq<char>| has_prefix(lowercase(p), lowercase(r"C:\Program Files (x86)\Common Files"@)) implies #[trigger] never_delete(p) by {
        assert(list[30]@ == r"C:\Program Files (x86)\Common Files"@);
    }
    assert forall|p: Seq<char>| has_prefix(lowercase(p), lowercase(r"C:\ProgramData"@)) implies #[trigger] never_delete(p) by {
        assert(list[31]@ == r"C:\ProgramData"@);
    }
    assert forall|p: Seq<char>| has_prefix(lowercase(p), lowercase(r"C:\ProgramData\Microsoft"@)) implies #[trigger] never_delete(p) by {
        assert(list[32]@ == r"C:\ProgramData\Microsoft"@);
    }
    assert forall|p: Seq<char>| has_prefix(lowercase(p), lowercase(r"C:\ProgramData\Package Cache"@)) implies #[trigger] never_delete(p) by {
        assert(list[33]@ == r"C:\ProgramData\Package Cache"@);
    }
    assert forall|p: Seq<char>| has_prefix(lowercase(p), lowercase(r"C:\Users\Default"@)) implies #[trigger] never_delete(p) by {
        assert(list[34]@ == r"C:\Users\Default"@);
    }
    assert forall|p: Seq<char>| has_prefix(lowercase(p), lowercase(r"C:\Users\Default User"@)) implies #[trigger] never_delete(p) by {
        assert(list[35]@ == r"C:\Users\Default User"@);
    }
    assert forall|p: Seq<char>| has_prefix(lowercase(p), lowercase(r"C:\Users\Public"@)) implies #[trigger] never_delete(p) by {
        assert(list[36]@ == r"C:\Users\Public"@);
    }
    assert forall|p: Seq<char>| has_prefix(lowercase(p), lowercase(r"C:\Users\Public\Desktop"@)) implies #[trigger] never_delete(p) by {
        assert(list[37]@ == r"C:\Users\Public\Desktop"@);
    }
    assert forall|p: Seq<char>| has_prefix(lowercase(p), lowercase(r"C:\Users\Public\Documents"@)) implies #[trigger] never_delete(p) by {
        assert(list[38]@ == r"C:\Users\Public\Documents"@);
    }
    assert forall|p: Seq<char>| has_prefix(lowercase(p), lowercase(r"C:\bootmgr"@)) implies #[trigger] never_delete(p) by {
        assert(list[39]@ == r"C:\bootmgr"@);
    }
    assert forall|p: Seq<char>| has_prefix(lowercase(p), lowercase(r"C:\BOOTNXT"@)) implies #[trigger] never_delete(p) by {
        assert(list[40]@ == r"C:\BOOTNXT"@);
    }
    assert forall|p: Seq<char>| has_prefix(lowercase(p), lowercase(r"C:\bootsect.bak"@)) implies #[trigger] never_delete(p) by {
        assert(list[41]@ == r"C:\bootsect.bak"@);
    }
    assert forall|p: Seq<char>| has_prefix(lowercase(p), lowercase(r"C:\EFI"@)) implies #[trigger] never_delete(p) by {
        assert(list[42]@ == r"C:\EFI"@);
    }
    assert forall|p: Seq<char>| has_prefix(lowercase(p), lowercase(r"C:\$Recycle.Bin"@)) implies #[trigger] never_delete(p) by {
        assert(list[43]@ == r"C:\$Recycle.Bin"@);
    }
    assert forall|p: Seq<char>| has_prefix(lowercase(p), lowercase(r"C:\System Volume Information"@)) implies #[trigger] never_delete(p) by {
        assert(list[44]@ == r"C:\System Volume Information"@);
    }
    assert forall|p: Seq<char>| has_prefix(lowercase(p), lowercase(r"C:\Recovery"@)) implies #[trigger] never_delete(p) by {
        assert(list[45]@ == r"C:\Recovery"@);
    }
    assert forall|p: Seq<char>| has_prefix(lowercase(p), lowercase(r"C:\pagefile.sys"@)) implies #[trigger] never_delete(p) by {
        assert(list[46]@ == r"C:\pagefile.sys"@);
    }
    assert forall|p: Seq<char>| has_prefix(lowercase(p), lowercase(r"C:\hiberfil.sys"@)) implies #[trigger] never_delete(p) by {
        assert(list[47]@ == r"C:\hiberfil.sys"@);
    }
    assert forall|p: Seq<char>| has_prefix(lowercase(p), lowercase(r"C:\swapfile.sys"@)) implies #[trigger] never_delete(p) by {
        assert(list[48]@ == r"C:\swapfile.sys"@);
    }
    assert forall|p: Seq<char>| has_prefix(lowercase(p), lowercase(r"C:\Windows\System32\lxss"@)) implies #[trigger] never_delete(p) by {
        assert(list[49]@ == r"C:\Windows\System32\lxss"@);
    }
    assert forall|p: Seq<char>| has_prefix(lowercase(p), lowercase(r"C:\ProgramData\Docker"@)) implies #[trigger] never_delete(p) by {
        assert(list[50]@ == r"C:\ProgramData\Docker"@);
    }
    assert forall|p: Seq<char>| has_prefix(lowercase(p), lowercase(r"C:\ProgramData\DockerDesktop"@)) implies #[trigger] never_delete(p) by {
        assert(list[51]@ == r"C:\ProgramData\DockerDesktop"@);
    }
    assert forall|p: Seq<char>| has_prefix(lowercase(p), lowercase(r"C:\Intel"@)) implies #[trigger] never_delete(p) by {
        assert(list[52]@ == r"C:\Intel"@);
    }
    assert forall|p: Seq<char>| has_prefix(lowercase(p), lowercase(r"C:\AMD"@)) implies #[trigger] never_delete(p) by {
        assert(list[53]@ == r"C:\AMD"@);
    }
    assert forall|p: Seq<char>| has_prefix(lowercase(p), lowercase(r"C:\NVIDIA"@)) implies #[trigger] never_delete(p) by {
        assert(list[54]@ == r"C:\NVIDIA"@);
    }
    assert forall|p: Seq<char>| has_prefix(lowercase(p), lowercase(r"C:\ATI"@)) implies #[trigger] never_delete(p) by {
        assert(list[55]@ == r"C:\ATI"@);
    }
    assert forall|p: Seq<char>| has_prefix(lowercase(p), lowercase(r"C:\OEM"@)) implies #[trigger] never_delete(p) by {
        assert(list[56]@ == r"C:\OEM"@);
    }
    assert forall|p: Seq<char>| has_prefix(lowercase(p), lowercase(r"C:\OEMPartition"@)) implies #[trigger] never_delete(p) by {
        assert(list[57]@ == r"C:\OEMPartition"@);
    }
    assert forall|p: Seq<char>| has_prefix(lowercase(p), lowercase(r"C:\Program Files\Microsoft Office"@)) implies #[trigger] never_delete(p) by {
        assert(list[58]@ == r"C:\Program Files\Microsoft Office"@);
    }
    assert forall|p: Seq<char>| has_prefix(lowercase(p), lowercase(r"C:\Program Files (x86)\Microsoft Office"@)) implies #[trigger] never_delete(p) by {
        assert(list[59]@ == r"C:\Program Files (x86)\Microsoft Office"@);
    }
    assert forall|p: Seq<char>| has_prefix(lowercase(p), lowercase(r"C:\Program Files\Microsoft Visual Studio"@)) implies #[trigger] never_delete(p) by {
        assert(list[60]@ == r"C:\Program Files\Microsoft Visual Studio"@);
    }
    assert forall|p: Seq<char>| has_prefix(lowercase(p), lowercase(r"C:\Program Files (x86)\Microsoft Visual Studio"@)) implies #[trigger] never_delete(p) by {
        assert(list[61]@ == r"C:\Program Files (x86)\Microsoft Visual Studio"@);
    }
    assert forall|p: Seq<char>| has_prefix(lowercase(p), lowercase(r"C:\Program Files (x86)\Common Files\Microsoft Shared\MSEnv"@)) implies #[trigger] never_delete(p) by {
        assert(list[62]@ == r"C:\Program Files (x86)\Common Files\Microsoft Shared\MSEnv"@);
    }
    assert forall|p: Seq<char>| has_prefix(lowercase(p), lowercase(r"C:\Program Files\Microsoft SQL Server"@)) implies #[trigger] never_delete(p) by {
        assert(list[63]@ == r"C:\Program Files\Microsoft SQL Server"@);
    }
    assert forall|p: Seq<char>| has_prefix(lowercase(p), lowercase(r"C:\Program Files (x86)\Microsoft SQL Server"@)) implies #[trigger] never_delete(p) by {
        assert(list[64]@ == r"C:\Program Files (x86)\Microsoft SQL Server"@);
    }
}


/// A file whose name matches one of the protected patterns (system files,
/// libraries, executables and scripts, installers and cabinets, PowerShell
/// modules, boot and disk images, memory dumps) must never be deleted
/// unless it lies in a context where such files are safe to delete.
pub proof fn law_protected_patterns()
    ensures
        forall|p: Seq<char>| (file_name(p) matches Some(f) && !safe_context(p, f) && pattern_matches(f, "*.sys"@)) ==> #[trigger] never_delete(p),
        forall|p: Seq<char>| (file_name(p) matches Some(f) && !safe_context(p, f) && pattern_matches(f, "*.dll"@)) ==> #[trigger] never_delete(p),
        forall|p: Seq<char>| (file_name(p) matches Some(f) && !safe_context(p, f) && pattern_matches(f, "*.exe"@)) ==> #[trigger] never_delete(p),
        forall|p: Seq<char>| (file_name(p) matches Some(f) && !safe_context(p, f) && pattern_matches(f, "*.com"@)) ==> #[trigger] never_delete(p),
        forall|p: Seq<char>| (file_name(p) matches Some(f) && !safe_context(p, f) && pattern_matches(f, "*.bat"@)) ==> #[trigger] never_delete(p),
        forall|p: Seq<char>| (file_name(p) matches Some(f) && !safe_context(p, f) && pattern_matches(f, "*.cmd"@)) ==> #[trigger] never_delete(p),
        forall|p: Seq<char>| (file_name(p) matches Some(f) && !safe_context(p, f) && pattern_matches(f, "*.ps1"@)) ==> #[trigger] never_delete(p),
        forall|p: Seq<char>| (file_name(p) matches Some(f) && !safe_context(p, f) && pattern_matches(f, "*.scr"@)) ==> #[trigger] never_delete(p),
        forall|p: Seq<char>| (file_name(p) matches Some(f) && !safe_context(p, f) && pattern_matches(f, "*.cpl"@)) ==> #[trigger] never_delete(p),
        forall|p: Seq<char>| (file_name(p) matches Some(f) && !safe_context(p, f) && pattern_matches(f, "*.msc"@)) ==> #[trigger] never_delete(p),
        forall|p: Seq<char>| (file_name(p) matches Some(f) && !safe_context(p, f) && pattern_matches(f, "*.msp"@)) ==> #[trigger] never_delete(p),
        forall|p: Seq<char>| (file_name(p) matches Some(f) && !safe_context(p, f) && pattern_matches(f, "*.msi"@)) ==> #[trigger] never_delete(p),
        forall|p: Seq<char>| (file_name(p) matches Some(f) && !safe_context(p, f) && pattern_matches(f, "*.msu"@)) ==> #[trigger] never_delete(p),
        forall|p: Seq<char>| (file_name(p) matches Some(f) && !safe_context(p, f) && pattern_matches(f, "*.cab"@)) ==> #[trigger] never_delete(p),
        forall|p: Seq<char>| (file_name(p) matches Some(f) && !safe_context(p, f) && pattern_matches(f, "*.psm1"@)) ==> #[trigger] never_delete(p),
        forall|p: Seq<char>| (file_name(p) matches Some(f) && !safe_context(p, f) && pattern_matches(f, "*.psd1"@)) ==> #[trigger] never_delete(p),
        forall|p: Seq<char>| (file_name(p) matches Some(f) && !safe_context(p, f) && pattern_matches(f, "*.ps1xml"@)) ==> #[trigger] never_delete(p),
        forall|p: Seq<char>| (file_name(p) matches Some(f) && !safe_context(p, f) && pattern_matches(f, "*.cdxml"@)) ==> #[trigger] never_delete(p),
        forall|p: Seq<char>| (file_name(p) matches Some(f) && !safe_context(p, f) && pattern_matches(f, "*.pssc"@)) ==> #[trigger] never_delete(p),
        forall|p: Seq<char>| (file_name(p) matches Some(f) && !safe_context(p, f) && pattern_matches(f, "*.diagcab"@)) ==> #[trigger] never_delete(p),
        forall|p: Seq<char>| (file_name(p) matches Some(f) && !safe_context(p, f) && pattern_matches(f, "*.efi"@)) ==> #[trigger] never_delete(p),
        forall|p: Seq<char>| (file_name(p) matches Some(f) && !safe_context(p, f) && pattern_matches(f, "*.bin"@)) ==> #[trigger] never_delete(p),
        forall|p: Seq<char>| (file_name(p) matches Some(f) && !safe_context(p, f) && pattern_matches(f, "*.vhd"@)) ==> #[trigger] never_delete(p),
        forall|p: Seq<char>| (file_name(p) matches Some(f) && !safe_context(p, f) && pattern_matches(f, "*.vhdx"@)) ==> #[trigger] never_delete(p),
        forall|p: Seq<char>| (file_name(p) matches Some(f) && !safe_context(p, f) && pattern_matches(f, "*.iso"@)) ==> #[trigger] never_delete(p),
        forall|p: Seq<char>| (file_name(p) matches Some(f) && !safe_context(p, f) && pattern_matches(f, "*.wim"@)) ==> #[trigger] never_delete(p),
        forall|p: Seq<char>| (file_name(p) matches Some(f) && !safe_context(p, f) && pattern_matches(f, "*.esd"@)) ==> #[trigger] never_delete(p),
        forall|p: Seq<char>| (file_name(p) matches Some(f) && !safe_context(p, f) && pattern_matches(f, "*.dmp"@)) ==> #[trigger] never_delete(p),
        forall|p: Seq<char>| (file_name(p) matches Some(f) && !safe_context(p, f) && pattern_matches(f, "*.hdmp"@)) ==> #[trigger] never_delete(p),
        forall|p: Seq<char>| (file_name(p) matches Some(f) && !safe_context(p, f) && pattern_matches(f, "*.mdmp"@)) ==> #[trigger] never_delete(p),
{
    let list = never_delete_pattern_list();
    assert forall|p: Seq<char>| (file_name(p) matches Some(f) && !safe_context(p, f) && pattern_matches(f, "*.sys"@)) implies #[trigger] never_delete(p) by {
        assert(list[0]@ == "*.sys"@);
    }
    assert forall|p: Seq<char>| (file_name(p) matches Some(f) && !safe_context(p, f) && pattern_matches(f, "*.dll"@)) implies #[trigger] never_delete(p) by {
        assert(list[1]@ == "*.dll"@);
    }
    assert forall|p: Seq<char>| (file_name(p) matches Some(f) && !safe_context(p, f) && pattern_matches(f, "*.exe"@)) implies #[trigger] never_delete(p) by {
        assert(list[2]@ == "*.exe"@);
    }
    assert forall|p: Seq<char>| (file_name(p) matches Some(f) && !safe_context(p, f) && pattern_matches(f, "*.com"@)) implies #[trigger] never_delete(p) by {
        assert(list[3]@ == "*.com"@);
    }
    assert forall|p: Seq<char>| (file_name(p) matches Some(f) && !safe_context(p, f) && pattern_matches(f, "*.bat"@)) implies #[trigger] never_delete(p) by {
        assert(list[4]@ == "*.bat"@);
    }
    assert forall|p: Seq<char>| (file_name(p) matches Some(f) && !safe_context(p, f) && pattern_matches(f, "*.cmd"@)) implies #[trigger] never_delete(p) by {
        assert(list[5]@ == "*.cmd"@);
    }
    assert forall|p: Seq<char>| (file_name(p) matches Some(f) && !safe_context(p, f) && pattern_matches(f, "*.ps1"@)) implies #[trigger] never_delete(p) by {
        assert(list[6]@ == "*.ps1"@);
    }
    assert forall|p: Seq<char>| (file_name(p) matches Some(f) && !safe_context(p, f) && pattern_matches(f, "*.scr"@)) implies #[trigger] never_delete(p) by {
        assert(list[7]@ == "*.scr"@);
    }
    assert forall|p: Seq<char>| (file_name(p) matches Some(f) && !safe_context(p, f) && pattern_matches(f, "*.cpl"@)) implies #[trigger] never_delete(p) by {
        assert(list[8]@ == "*.cpl"@);
    }
    assert forall|p: Seq<char>| (file_name(p) matches Some(f) && !safe_context(p, f) && pattern_matches(f, "*.msc"@)) implies #[trigger] never_delete(p) by {
        assert(list[9]@ == "*.msc"@);
    }
    assert forall|p: Seq<char>| (file_name(p) matches Some(f) && !safe_context(p, f) && pattern_matches(f, "*.msp"@)) implies #[trigger] never_delete(p) by {
        assert(list[10]@ == "*.msp"@);
    }
    assert forall|p: Seq<char>| (file_name(p) matches Some(f) && !safe_context(p, f) && pattern_matches(f, "*.msi"@)) implies #[trigger] never_delete(p) by {
        assert(list[11]@ == "*.msi"@);
    }
    assert forall|p: Seq<char>| (file_name(p) matches Some(f) && !safe_context(p, f) && pattern_matches(f, "*.msu"@)) implies #[trigger] never_delete(p) by {
        assert(list[12]@ == "*.msu"@);
    }
    assert forall|p: Seq<char>| (file_name(p) matches Some(f) && !safe_context(p, f) && pattern_matches(f, "*.cab"@)) implies #[trigger] never_delete(p) by {
        assert(list[13]@ == "*.cab"@);
    }
    assert forall|p: Seq<char>| (file_name(p) matches Some(f) && !safe_context(p, f) && pattern_matches(f, "*.psm1"@)) implies #[trigger] never_delete(p) by {
        assert(list[14]@ == "*.psm1"@);
    }
    assert forall|p: Seq<char>| (file_name(p) matches Some(f) && !safe_context(p, f) && pattern_matches(f, "*.psd1"@)) implies #[trigger] never_delete(p) by {
        assert(list[15]@ == "*.psd1"@);
    }
    assert forall|p: Seq<char>| (file_name(p) matches Some(f) && !safe_context(p, f) && pattern_matches(f, "*.ps1xml"@)) implies #[trigger] never_delete(p) by {
        assert(list[16]@ == "*.ps1xml"@);
    }
    assert forall|p: Seq<char>| (file_name(p) matches Some(f) && !safe_context(p, f) && pattern_matches(f, "*.cdxml"@)) implies #[trigger] never_delete(p) by {
        assert(list[17]@ == "*.cdxml"@);
    }
    assert forall|p: Seq<char>| (file_name(p) matches Some(f) && !safe_context(p, f) && pattern_matches(f, "*.pssc"@)) implies #[trigger] never_delete(p) by {
        assert(list[18]@ == "*.pssc"@);
    }
    assert forall|p: Seq<char>| (file_name(p) matches Some(f) && !safe_context(p, f) && pattern_matches(f, "*.diagcab"@)) implies #[trigger] never_delete(p) by {
        assert(list[19]@ == "*.diagcab"@);
    }
    assert forall|p: Seq<char>| (file_name(p) matches Some(f) && !safe_context(p, f) && pattern_matches(f, "*.efi"@)) implies #[trigger] never_delete(p) by {
        assert(list[20]@ == "*.efi"@);
    }
    assert forall|p: Seq<char>| (file_name(p) matches Some(f) && !safe_context(p, f) && pattern_matches(f, "*.bin"@)) implies #[trigger] never_delete(p) by {
        assert(list[21]@ == "*.bin"@);
    }
    assert forall|p: Seq<char>| (file_name(p) matches Some(f) && !safe_context(p, f) && pattern_matches(f, "*.vhd"@)) implies #[trigger] never_delete(p) by {
        assert(list[22]@ == "*.vhd"@);
    }
    assert forall|p: Seq<char>| (file_name(p) matches Some(f) && !safe_context(p, f) && pattern_matches(f, "*.vhdx"@)) implies #[trigger] never_delete(p) by {
        assert(list[23]@ == "*.vhdx"@);
    }
    assert forall|p: Seq<char>| (file_name(p) matches Some(f) && !safe_context(p, f) && pattern_matches(f, "*.iso"@)) implies #[trigger] never_delete(p) by {
        assert(list[24]@ == "*.iso"@);
    }
    assert forall|p: Seq<char>| (file_name(p) matches Some(f) && !safe_context(p, f) && pattern_matches(f, "*.wim"@)) implies #[trigger] never_delete(p) by {
        assert(list[25]@ == "*.wim"@);
    }
    assert forall|p: Seq<char>| (file_name(p) matches Some(f) && !safe_context(p, f) && pattern_matches(f, "*.esd"@)) implies #[trigger] never_delete(p) by {
        assert(list[26]@ == "*.esd"@);
    }
    assert forall|p: Seq<char>| (file_name(p) matches Some(f) && !safe_context(p, f) && pattern_matches(f, "*.dmp"@)) implies #[trigger] never_delete(p) by {
        assert(list[27]@ == "*.dmp"@);
    }
    assert forall|p: Seq<char>| (file_name(p) matches Some(f) && !safe_context(p, f) && pattern_matches(f, "*.hdmp"@)) implies #[trigger] never_delete(p) by {
        assert(list[28]@ == "*.hdmp"@);
    }
    assert forall|p: Seq<char>| (file_name(p) matches Some(f) && !safe_context(p, f) && pattern_matches(f, "*.mdmp"@)) implies #[trigger] never_delete(p) by {
        assert(list[29]@ == "*.mdmp"@);
    }
}


/// Every folder that holds one of the critical system paths (the drive
/// root, `C:\Windows`, `C:\Program Files`, ...) must never be deleted
/// either.
pub proof fn law_ancestors_of_critical_paths_protected()
    ensures
        forall|p: Seq<char>| path_starts_with(r"C:\Windows"@, p) ==> #[trigger] never_delete(p),
        forall|p: Seq<char>| path_starts_with(r"C:\Windows\System32"@, p) ==> #[trigger] never_delete(p),
        forall|p: Seq<char>| path_starts_with(r"C:\Windows\SysWOW64"@, p) ==> #[trigger] never_delete(p),
        forall|p: Seq<char>| path_starts_with(r"C:\Windows\System32\drivers"@, p) ==> #[trigger] never_delete(p),
        forall|p: Seq<char>| path_starts_with(r"C:\Windows\System32\config"@, p) ==> #[trigger] never_delete(p),
        forall|p: Seq<char>| path_starts_with(r"C:\Windows\System32\winevt"@, p) ==> #[trigger] never_delete(p),
        forall|p: Seq<char>| path_starts_with(r"C:\Windows\System32\LogFiles"@, p) ==> #[trigger] never_delete(p),
        forall|p: Seq<char>| path_starts_with(r"C:\Windows\System32\catroot"@, p) ==> #[trigger] never_delete(p),
        forall|p: Seq<char>| path_starts_with(r"C:\Windows\System32\catroot2"@, p) ==> #[trigger] never_delete(p),
        forall|p: Seq<char>| path_starts_with(r"C:\Windows\Microsoft.NET"@, p) ==> #[trigger] never_delete(p),
        forall|p: Seq<char>| path_starts_with(r"C:\Windows\assembly"@, p) ==> #[trigger] never_delete(p),
        forall|p: Seq<char>| path_starts_with(r"C:\Windows\servicing"@, p) ==> #[trigger] never_delete(p),
        forall|p: Seq<char>| path_starts_with(r"C:\Windows\WinSxS"@, p) ==> #[trigger] never_delete(p),
        forall|p: Seq<char>| path_starts_with(r"C:\Windows\SoftwareDistribution"@, p) ==> #[trigger] never_delete(p),
        forall|p: Seq<char>| path_starts_with(r"C:\Windows\inf"@, p) ==> #[trigger] never_delete(p),
        forall|p: Seq<char>| path_starts_with(r"C:\Windows\Installer"@, p) ==> #[trigger] never_delete(p),
        forall|p: Seq<char>| path_starts_with(r"C:\Windows\Fonts"@, p) ==> #[trigger] never_delete(p),
        forall|p: Seq<char>| path_starts_with(r"C:\Windows\resources"@, p) ==> #[trigger] never_delete(p),
        forall|p: Seq<char>| path_starts_with(r"C:\Windows\addins"@, p) ==> #[trigger] never_delete(p),
        forall|p: Seq<char>| path_starts_with(r"C:\Windows\PolicyDefinitions"@, p) ==> #[trigger] never_delete(p),
        forall|p: Seq<char>| path_starts_with(r"C:\Windows\debug"@, p) ==> #[trigger] never_delete(p),
        forall|p: Seq<char>| path_starts_with(r"C:\Windows\LiveKernelReports"@, p) ==> #[trigger] never_delete(p),
        forall|p: Seq<char>| path_starts_with(r"C:\Windows\Logs"@, p) ==> #[trigger] never_delete(p),
        forall|p: Seq<char>| path_starts_with(r"C:\Windows\Prefetch"@, p) ==> #[trigger] never_delete(p),
        forall|p: Seq<char>| path_starts_with(r"C:\Windows\Repair"@, p) ==> #[trigger] never_delete(p),
        forall|p: Seq<char>| path_starts_with(r"C:\Windows\Security"@, p) ==> #[trigger] never_delete(p),
        forall|p: Seq<char>| path_starts_with(r"C:\Windows\SystemResources"@, p) ==> #[trigger] never_delete(p),
        forall|p: Seq<char>| path_starts_with(r"C:\Program Files"@, p) ==> #[trigger] never_delete(p),
        forall|p: Seq<char>| path_starts_with(r"C:\Program Files (x86)"@, p) ==> #[trigger] never_delete(p),
        forall|p: Seq<char>| path_starts_with(r"C:\Program Files\Common Files"@, p) ==> #[trigger] never_delete(p),
        forall|p: Seq<char>| path_starts_with(r"C:\Program Files (x86)\Common Files"@, p) ==> #[trigger] never_delete(p),
        forall|p: Seq<char>| path_starts_with(r"C:\ProgramData"@, p) ==> #[trigger] never_delete(p),
        forall|p: Seq<char>| path_starts_with(r"C:\ProgramData\Microsoft"@, p) ==> #[trigger] never_delete(p),
        forall|p: Seq<char>| path_starts_with(r"C:\ProgramData\Package Cache"@, p) ==> #[trigger] never_delete(p),
        forall|p: Seq<char>| path_starts_with(r"C:\Users\Default"@, p) ==> #[trigger] never_delete(p),
        forall|p: Seq<char>| path_starts_with(r"C:\Users\Default User"@, p) ==> #[trigger] never_delete(p),
        forall|p: Seq<char>| path_starts_with(r"C:\Users\Public"@, p) ==> #[trigger] never_delete(p),
        forall|p: Seq<char>| path_starts_with(r"C:\Users\Public\Desktop"@, p) ==> #[trigger] never_delete(p),
        forall|p: Seq<char>| path_starts_with(r"C:\Users\Public\Documents"@, p) ==> #[trigger] never_delete(p),
        forall|p: Seq<char>| path_starts_with(r"C:\bootmgr"@, p) ==> #[trigger] never_delete(p),
        forall|p: Seq<char>| path_starts_with(r"C:\BOOTNXT"@, p) ==> #[trigger] never_delete(p),
        forall|p: Seq<char>| path_starts_with(r"C:\bootsect.bak"@, p) ==> #[trigger] never_delete(p),
        forall|p: Seq<char>| path_starts_with(r"C:\EFI"@, p) ==> #[trigger] never_delete(p),
        forall|p: Seq<char>| path_starts_with(r"C:\$Recycle.Bin"@, p) ==> #[trigger] never_delete(p),
        forall|p: Seq<char>| path_starts_with(r"C:\System Volume Information"@, p) ==> #[trigger] never_delete(p),
        forall|p: Seq<char>| path_starts_with(r"C:\Recovery"@, p) ==> #[trigger] never_delete(p),
        forall|p: Seq<char>| path_starts_with(r"C:\pagefile.sys"@, p) ==> #[trigger] never_delete(p),
        forall|p: Seq<char>| path_starts_with(r"C:\hiberfil.sys"@, p) ==> #[trigger] never_delete(p),
        forall|p: Seq<char>| path_starts_with(r"C:\swapfile.sys"@, p) ==> #[trigger] never_delete(p),
        forall|p: Seq<char>| path_starts_with(r"C:\Windows\System32\lxss"@, p) ==> #[trigger] never_delete(p),
        forall|p: Seq<char>| path_starts_with(r"C:\ProgramData\Docker"@, p) ==> #[trigger] never_delete(p),
        forall|p: Seq<char>| path_starts_with(r"C:\ProgramData\DockerDesktop"@, p) ==> #[trigger] never_delete(p),
        forall|p: Seq<char>| path_starts_with(r"C:\Intel"@, p) ==> #[trigger] never_delete(p),
        forall|p: Seq<char>| path_starts_with(r"C:\AMD"@, p) ==> #[trigger] never_delete(p),
        forall|p: Seq<char>| path_starts_with(r"C:\NVIDIA"@, p) ==> #[trigger] never_delete(p),
        forall|p: Seq<char>| path_starts_with(r"C:\ATI"@, p) ==> #[trigger] never_delete(p),
        forall|p: Seq<char>| path_starts_with(r"C:\OEM"@, p) ==> #[trigger] never_delete(p),
        forall|p: Seq<char>| path_starts_with(r"C:\OEMPartition"@, p) ==> #[trigger] never_delete(p),
        forall|p: Seq<char>| path_starts_with(r"C:\Program Files\Microsoft Office"@, p) ==> #[trigger] never_delete(p),
        forall|p: Seq<char>| path_starts_with(r"C:\Program Files (x86)\Microsoft Office"@, p) ==> #[trigger] never_delete(p),
        forall|p: Seq<char>| path_starts_with(r"C:\Program Files\Microsoft Visual Studio"@, p) ==> #[trigger] never_delete(p),
        forall|p: Seq<char>| path_starts_with(r"C:\Program Files (x86)\Microsoft Visual Studio"@, p) ==> #[trigger] never_delete(p),
        forall|p: Seq<char>| path_starts_with(r"C:\Program Files (x86)\Common Files\Microsoft Shared\MSEnv"@, p) ==> #[trigger] never_delete(p),
        forall|p: Seq<char>| path_starts_with(r"C:\Program Files\Microsoft SQL Server"@, p) ==> #[trigger] never_delete(p),
        forall|p: Seq<char>| path_starts_with(r"C:\Program Files (x86)\Microsoft SQL Server"@, p) ==> #[trigger] never_delete(p),
{
    let list = never_delete_path_list();
    assert forall|p: Seq<char>| path_starts_with(r"C:\Windows"@, p) implies #[trigger] never_delete(p) by {
        assert(list[0]@ == r"C:\Windows"@);
    }
    assert forall|p: Seq<char>| path_starts_with(r"C:\Windows\System32"@, p) implies #[trigger] never_delete(p) by {
        assert(list[1]@ == r"C:\Windows\System32"@);
    }
    assert forall|p: Seq<char>| path_starts_with(r"C:\Windows\SysWOW64"@, p) implies #[trigger] never_delete(p) by {
        assert(list[2]@ == r"C:\Windows\SysWOW64"@);
    }
    assert forall|p: Seq<char>| path_starts_with(r"C:\Windows\System32\drivers"@, p) implies #[trigger] never_delete(p) by {
        assert(list[3]@ == r"C:\Windows\System32\drivers"@);
    }
    assert forall|p: Seq<char>| path_starts_with(r"C:\Windows\System32\config"@, p) implies #[trigger] never_delete(p) by {
        assert(list[4]@ == r"C:\Windows\System32\config"@);
    }
    assert forall|p: Seq<char>| path_starts_with(r"C:\Windows\System32\winevt"@, p) implies #[trigger] never_delete(p) by {
        assert(list[5]@ == r"C:\Windows\System32\winevt"@);
    }
    assert forall|p: Seq<char>| path_starts_with(r"C:\Windows\System32\LogFiles"@, p) implies #[trigger] never_delete(p) by {
        assert(list[6]@ == r"C:\Windows\System32\LogFiles"@);
    }
    assert forall|p: Seq<char>| path_starts_with(r"C:\Windows\System32\catroot"@, p) implies #[trigger] never_delete(p) by {
        assert(list[7]@ == r"C:\Windows\System32\catroot"@);
    }
    assert forall|p: Seq<char>| path_starts_with(r"C:\Windows\System32\catroot2"@, p) implies #[trigger] never_delete(p) by {
        assert(list[8]@ == r"C:\Windows\System32\catroot2"@);
    }
    assert forall|p: Seq<char>| path_starts_with(r"C:\Windows\Microsoft.NET"@, p) implies #[trigger] never_delete(p) by {
        assert(list[9]@ == r"C:\Windows\Microsoft.NET"@);
    }
    assert forall|p: Seq<char>| path_starts_with(r"C:\Windows\assembly"@, p) implies #[trigger] never_delete(p) by {
        assert(list[10]@ == r"C:\Windows\assembly"@);
    }
    assert forall|p: Seq<char>| path_starts_with(r"C:\Windows\servicing"@, p) implies #[trigger] never_delete(p) by {
        assert(list[11]@ == r"C:\Windows\servicing"@);
    }
    assert forall|p: Seq<char>| path_starts_with(r"C:\Windows\WinSxS"@, p) implies #[trigger] never_delete(p) by {
        assert(list[12]@ == r"C:\Windows\WinSxS"@);
    }
    assert forall|p: Seq<char>| path_starts_with(r"C:\Windows\SoftwareDistribution"@, p) implies #[trigger] never_delete(p) by {
        assert(list[13]@ == r"C:\Windows\SoftwareDistribution"@);
    }
    assert forall|p: Seq<char>| path_starts_with(r"C:\Windows\inf"@, p) implies #[trigger] never_delete(p) by {
        assert(list[14]@ == r"C:\Windows\inf"@);
    }
    assert forall|p: Seq<char>| path_starts_with(r"C:\Windows\Installer"@, p) implies #[trigger] never_delete(p) by {
        assert(list[15]@ == r"C:\Windows\Installer"@);
    }
    assert forall|p: Seq<char>| path_starts_with(r"C:\Windows\Fonts"@, p) implies #[trigger] never_delete(p) by {
        assert(list[16]@ == r"C:\Windows\Fonts"@);
    }
    assert forall|p: Seq<char>| path_starts_with(r"C:\Windows\resources"@, p) implies #[trigger] never_delete(p) by {
        assert(list[17]@ == r"C:\Windows\resources"@);
    }
    assert forall|p: Seq<char>| path_starts_with(r"C:\Windows\addins"@, p) implies #[trigger] never_delete(p) by {
        assert(list[18]@ == r"C:\Windows\addins"@);
    }
    assert forall|p: Seq<char>| path_starts_with(r"C:\Windows\PolicyDefinitions"@, p) implies #[trigger] never_delete(p) by {
        assert(list[19]@ == r"C:\Windows\PolicyDefinitions"@);
    }
    assert forall|p: Seq<char>| path_starts_with(r"C:\Windows\debug"@, p) implies #[trigger] never_delete(p) by {
        assert(list[20]@ == r"C:\Windows\debug"@);
    }
    assert forall|p: Seq<char>| path_starts_with(r"C:\Windows\LiveKernelReports"@, p) implies #[trigger] never_delete(p) by {
        assert(list[21]@ == r"C:\Windows\LiveKernelReports"@);
    }
    assert forall|p: Seq<char>| path_starts_with(r"C:\Windows\Logs"@, p) implies #[trigger] never_delete(p) by {
        assert(list[22]@ == r"C:\Windows\Logs"@);
    }
    assert forall|p: Seq<char>| path_starts_with(r"C:\Windows\Prefetch"@, p) implies #[trigger] never_delete(p) by {
        assert(list[23]@ == r"C:\Windows\Prefetch"@);
    }
    assert forall|p: Seq<char>| path_starts_with(r"C:\Windows\Repair"@, p) implies #[trigger] never_delete(p) by {
        assert(list[24]@ == r"C:\Windows\Repair"@);
    }
    assert forall|p: Seq<char>| path_starts_with(r"C:\Windows\Security"@, p) implies #[trigger] never_delete(p) by {
        assert(list[25]@ == r"C:\Windows\Security"@);
    }
    assert forall|p: Seq<char>| path_starts_with(r"C:\Windows\SystemResources"@, p) implies #[trigger] never_delete(p) by {
        assert(list[26]@ == r"C:\Windows\SystemResources"@);
    }
    assert forall|p: Seq<char>| path_starts_with(r"C:\Program Files"@, p) implies #[trigger] never_delete(p) by {
        assert(list[27]@ == r"C:\Program Files"@);
    }
    assert forall|p: Seq<char>| path_starts_with(r"C:\Program Files (x86)"@, p) implies #[trigger] never_delete(p) by {
        assert(list[28]@ == r"C:\Program Files (x86)"@);
    }
    assert forall|p: Seq<char>| path_starts_with(r"C:\Program Files\Common Files"@, p) implies #[trigger] never_delete(p) by {
        assert(list[29]@ == r"C:\Program Files\Common Files"@);
    }
    assert forall|p: Seq<char>| path_starts_with(r"C:\Program Files (x86)\Common Files"@, p) implies #[trigger] never_delete(p) by {
        assert(list[30]@ == r"C:\Program Files (x86)\Common Files"@);
    }
    assert forall|p: Seq<char>| path_starts_with(r"C:\ProgramData"@, p) implies #[trigger] never_delete(p) by {
        assert(list[31]@ == r"C:\ProgramData"@);
    }
    assert forall|p: Seq<char>| path_starts_with(r"C:\ProgramData\Microsoft"@, p) implies #[trigger] never_delete(p) by {
        assert(list[32]@ == r"C:\ProgramData\Microsoft"@);
    }
    assert forall|p: Seq<char>| path_starts_with(r"C:\ProgramData\Package Cache"@, p) implies #[trigger] never_delete(p) by {
        assert(list[33]@ == r"C:\ProgramData\Package Cache"@);
    }
    assert forall|p: Seq<char>| path_starts_with(r"C:\Users\Default"@, p) implies #[trigger] never_delete(p) by {
        assert(list[34]@ == r"C:\Users\Default"@);
    }
    assert forall|p: Seq<char>| path_starts_with(r"C:\Users\Default User"@, p) implies #[trigger] never_delete(p) by {
        assert(list[35]@ == r"C:\Users\Default User"@);
    }
    assert forall|p: Seq<char>| path_starts_with(r"C:\Users\Public"@, p) implies #[trigger] never_delete(p) by {
        assert(list[36]@ == r"C:\Users\Public"@);
    }
    assert forall|p: Seq<char>| path_starts_with(r"C:\Users\Public\Desktop"@, p) implies #[trigger] never_delete(p) by {
        assert(list[37]@ == r"C:\Users\Public\Desktop"@);
    }
    assert forall|p: Seq<char>| path_starts_with(r"C:\Users\Public\Documents"@, p) implies #[trigger] never_delete(p) by {
        assert(list[38]@ == r"C:\Users\Public\Documents"@);
    }
    assert forall|p: Seq<char>| path_starts_with(r"C:\bootmgr"@, p) implies #[trigger] never_delete(p) by {
        assert(list[39]@ == r"C:\bootmgr"@);
    }
    assert forall|p: Seq<char>| path_starts_with(r"C:\BOOTNXT"@, p) implies #[trigger] never_delete(p) by {
        assert(list[40]@ == r"C:\BOOTNXT"@);
    }
    assert forall|p: Seq<char>| path_starts_with(r"C:\bootsect.bak"@, p) implies #[trigger] never_delete(p) by {
        assert(list[41]@ == r"C:\bootsect.bak"@);
    }
    assert forall|p: Seq<char>| path_starts_with(r"C:\EFI"@, p) implies #[trigger] never_delete(p) by {
        assert(list[42]@ == r"C:\EFI"@);
    }
    assert forall|p: Seq<char>| path_starts_with(r"C:\$Recycle.Bin"@, p) implies #[trigger] never_delete(p) by {
        assert(list[43]@ == r"C:\$Recycle.Bin"@);
    }
    assert forall|p: Seq<char>| path_starts_with(r"C:\System Volume Information"@, p) implies #[trigger] never_delete(p) by {
        assert(list[44]@ == r"C:\System Volume Information"@);
    }
    assert forall|p: Seq<char>| path_starts_with(r"C:\Recovery"@, p) implies #[trigger] never_delete(p) by {
        assert(list[45]@ == r"C:\Recovery"@);
    }
    assert forall|p: Seq<char>| path_starts_with(r"C:\pagefile.sys"@, p) implies #[trigger] never_delete(p) by {
        assert(list[46]@ == r"C:\pagefile.sys"@);
    }
    assert forall|p: Seq<char>| path_starts_with(r"C:\hiberfil.sys"@, p) implies #[trigger] never_delete(p) by {
        assert(list[47]@ == r"C:\hiberfil.sys"@);
    }
    assert forall|p: Seq<char>| path_starts_with(r"C:\swapfile.sys"@, p) implies #[trigger] never_delete(p) by {
        assert(list[48]@ == r"C:\swapfile.sys"@);
    }
    assert forall|p: Seq<char>| path_starts_with(r"C:\Windows\System32\lxss"@, p) implies #[trigger] never_delete(p) by {
        assert(list[49]@ == r"C:\Windows\System32\lxss"@);
    }
    assert forall|p: Seq<char>| path_starts_with(r"C:\ProgramData\Docker"@, p) implies #[trigger] never_delete(p) by {
        assert(list[50]@ == r"C:\ProgramData\Docker"@);
    }
    assert forall|p: Seq<char>| path_starts_with(r"C:\ProgramData\DockerDesktop"@, p) implies #[trigger] never_delete(p) by {
        assert(list[51]@ == r"C:\ProgramData\DockerDesktop"@);
    }
    assert forall|p: Seq<char>| path_starts_with(r"C:\Intel"@, p) implies #[trigger] never_delete(p) by {
        assert(list[52]@ == r"C:\Intel"@);
    }
    assert forall|p: Seq<char>| path_starts_with(r"C:\AMD"@, p) implies #[trigger] never_delete(p) by {
        assert(list[53]@ == r"C:\AMD"@);
    }
    assert forall|p: Seq<char>| path_starts_with(r"C:\NVIDIA"@, p) implies #[trigger] never_delete(p) by {
        assert(list[54]@ == r"C:\NVIDIA"@);
    }
    assert forall|p: Seq<char>| path_starts_with(r"C:\ATI"@, p) implies #[trigger] never_delete(p) by {
        assert(list[55]@ == r"C:\ATI"@);
    }
    assert forall|p: Seq<char>| path_starts_with(r"C:\OEM"@, p) implies #[trigger] never_delete(p) by {
        assert(list[56]@ == r"C:\OEM"@);
    }
    assert forall|p: Seq<char>| path_starts_with(r"C:\OEMPartition"@, p) implies #[trigger] never_delete(p) by {
        assert(list[57]@ == r"C:\OEMPartition"@);
    }
    assert forall|p: Seq<char>| path_starts_with(r"C:\Program Files\Microsoft Office"@, p) implies #[trigger] never_delete(p) by {
        assert(list[58]@ == r"C:\Program Files\Microsoft Office"@);
    }
    assert forall|p: Seq<char>| path_starts_with(r"C:\Program Files (x86)\Microsoft Office"@, p) implies #[trigger] never_delete(p) by {
        assert(list[59]@ == r"C:\Program Files (x86)\Microsoft Office"@);
    }
    assert forall|p: Seq<char>| path_starts_with(r"C:\Program Files\Microsoft Visual Studio"@, p) implies #[trigger] never_delete(p) by {
        assert(list[60]@ == r"C:\Program Files\Microsoft Visual Studio"@);
    }
    assert forall|p: Seq<char>| path_starts_with(r"C:\Program Files (x86)\Microsoft Visual Studio"@, p) implies #[trigger] never_delete(p) by {
        assert(list[61]@ == r"C:\Program Files (x86)\Microsoft Visual Studio"@);
    }
    assert forall|p: Seq<char>| path_starts_with(r"C:\Program Files (x86)\Common Files\Microsoft Shared\MSEnv"@, p) implies #[trigger] never_delete(p) by {
        assert(list[62]@ == r"C:\Program Files (x86)\Common Files\Microsoft Shared\MSEnv"@);
    }
    assert forall|p: Seq<char>| path_starts_with(r"C:\Program Files\Microsoft SQL Server"@, p) implies #[trigger] never_delete(p) by {
        assert(list[63]@ == r"C:\Program Files\Microsoft SQL Server"@);
    }
    assert forall|p: Seq<char>| path_starts_with(r"C:\Program Files (x86)\Microsoft SQL Server"@, p) implies #[trigger] never_delete(p) by {
        assert(list[64]@ == r"C:\Program Files (x86)\Microsoft SQL Server"@);
    }
}

} // verus!
