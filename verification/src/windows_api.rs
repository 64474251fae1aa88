//! What the cleaner makes of the values that Windows API calls hand back:
//! file attributes, process names, registry strings and final path names.
//! The calls themselves are made by the caller.
use vstd::prelude::*;
use crate::text::{chars_of, copy_range, has_prefix, is_high_surrogate, is_low_surrogate, surrogate_pair_char, lowercase, str_eq, string_of, to_lower};

verus! {

/// `FILE_ATTRIBUTE_HIDDEN`.
pub const FILE_ATTRIBUTE_HIDDEN: u32 = 0x2;

/// `FILE_ATTRIBUTE_REPARSE_POINT`.
pub const FILE_ATTRIBUTE_REPARSE_POINT: u32 = 0x400;

/// `INVALID_FILE_ATTRIBUTES`.
pub const INVALID_FILE_ATTRIBUTES: u32 = 0xffff_ffff;

/// Access to the Windows API.
pub struct WindowsApi;

/// Information about a running process.
#[derive(Debug, Clone)]
pub struct ProcessInfo {
    pub pid: u32,
    pub ppid: u32,
    pub name: String,
}

/// Why a value handed back by the Windows API could not be used.
#[derive(Debug, Clone, Copy, PartialEq, Eq, Structural)]
pub enum ApiError {
    /// The final path filled the whole buffer.
    BufferTooSmall,
    /// The UTF-16 text holds an unpaired surrogate.
    InvalidUtf16,
}

/// The text that UTF-16 code units encode, or nothing when they hold an
/// unpaired surrogate: a high surrogate followed by a low one is one
/// character, any other unit the character of that value.
pub open spec fn utf16_strict(units: Seq<u16>) -> Option<Seq<char>>
    decreases units.len(),
{
    if units.len() == 0 {
        Some(Seq::empty())
    } else if units.len() > 1 && is_high_surrogate(units[0]) && is_low_surrogate(units[1]) {
        match utf16_strict(units.subrange(2, units.len() as int)) {
            Some(rest) => Some(seq![surrogate_pair_char(units[0], units[1])] + rest),
            None => None,
        }
    } else if is_high_surrogate(units[0]) || is_low_surrogate(units[0]) {
        None
    } else {
        match utf16_strict(units.drop_first()) {
            Some(rest) => Some(seq![units[0] as char] + rest),
            None => None,
        }
    }
}

/// Calls `String::from_utf16`, which decodes UTF-16 as `utf16_strict` says
/// and fails on an unpaired surrogate.
#[verifier::external_body]
fn decode_utf16(units: &[u16]) -> (r: Option<String>)
    ensures
        match r {
            Some(s) => utf16_strict(units@) == Some(s@),
            None => utf16_strict(units@) is None,
        },
{
    String::from_utf16(units).ok()
}

/// A name for what `String::from_utf8_lossy` returns: the text that UTF-8
/// bytes encode, with U+FFFD for each invalid sequence.
pub uninterp spec fn utf8_lossy(bytes: Seq<u8>) -> Seq<char>;

/// Calls `String::from_utf8_lossy`; its result is named by `utf8_lossy`.
#[verifier::external_body]
fn decode_utf8_lossy(bytes: &[u8]) -> (s: String)
    ensures
        s@ == utf8_lossy(bytes@),
{
    String::from_utf8_lossy(bytes).into_owned()
}

/// The part of `s` before its first zero, or all of it.
pub open spec fn before_zero(s: Seq<u8>) -> Seq<u8> {
    if exists|i: int| 0 <= i < s.len() && s[i] == 0 {
        s.subrange(0, choose|i: int| 0 <= i < s.len() && s[i] == 0 && forall|j: int| 0 <= j < i ==> s[j] != 0)
    } else {
        s
    }
}

/// `s` without one trailing zero, if it ends with one.
pub open spec fn drop_terminator(s: Seq<u16>) -> Seq<u16> {
    if s.len() > 0 && s.last() == 0 {
        s.drop_last()
    } else {
        s
    }
}

/// `s` without the `\\?\` prefix, if it has one.
pub open spec fn strip_verbatim(s: Seq<char>) -> Seq<char> {
    if has_prefix(s, seq!['\\', '\\', '?', '\\']) {
        s.subrange(4, s.len() as int)
    } else {
        s
    }
}

/// The process list holds a process of that name, compared in lowercase.
pub open spec fn running_spec(processes: Seq<ProcessInfo>, name: Seq<char>) -> bool {
    exists|i: int| 0 <= i < processes.len() && lowercase(processes[i].name@) == lowercase(name)
}

impl WindowsApi {
    /// A handle on the Windows API.
    pub fn new() -> (api: Self) {
        WindowsApi
    }

    /// Whether a process of that name, compared in lowercase, is in the list
    /// of running processes.
    pub fn is_process_running(&self, processes: &[ProcessInfo], name: &str) -> (b: bool)
        ensures
            b == running_spec(processes@, name@),
    {
        let want = to_lower(name);
        let mut i: usize = 0;
        while i < processes.len()
            invariant
                i <= processes@.len(),
                want@ == lowercase(name@),
                forall|j: int| 0 <= j < i ==> lowercase(#[trigger] processes@[j].name@) != lowercase(name@),
            decreases processes@.len() - i,
        {
            let have = to_lower(processes[i].name.as_str());
            if str_eq(have.as_str(), want.as_str()) {
                return true;
            }
            i += 1;
        }
        false
    }
}

/// Whether attributes read with `GetFileAttributesW` mark a reparse point;
/// unreadable attributes mark none.
pub fn is_reparse_attributes(attributes: u32) -> (b: bool)
    ensures
        b == (attributes != INVALID_FILE_ATTRIBUTES && attributes & FILE_ATTRIBUTE_REPARSE_POINT != 0),
{
    attributes != INVALID_FILE_ATTRIBUTES && attributes & FILE_ATTRIBUTE_REPARSE_POINT != 0
}

/// Whether attributes read with `GetFileAttributesW` mark a hidden file;
/// unreadable attributes mark none.
pub fn is_hidden_attributes(attributes: u32) -> (b: bool)
    ensures
        b == (attributes != INVALID_FILE_ATTRIBUTES && attributes & FILE_ATTRIBUTE_HIDDEN != 0),
{
    attributes != INVALID_FILE_ATTRIBUTES && attributes & FILE_ATTRIBUTE_HIDDEN != 0
}

/// The attributes with the hidden flag set or cleared, and every other flag
/// kept.
pub fn with_hidden(attributes: u32, hidden: bool) -> (r: u32)
    ensures
        (r & FILE_ATTRIBUTE_HIDDEN != 0) == hidden,
        r & !FILE_ATTRIBUTE_HIDDEN == attributes & !FILE_ATTRIBUTE_HIDDEN,
        r == (if hidden { attributes | FILE_ATTRIBUTE_HIDDEN } else { attributes & !FILE_ATTRIBUTE_HIDDEN }),
{
    if hidden {
        let r = attributes | FILE_ATTRIBUTE_HIDDEN;
        assert((r & 0x2u32 != 0) && r & !0x2u32 == attributes & !0x2u32) by (bit_vector)
            requires
                r == attributes | 0x2u32,
        ;
        r
    } else {
        let r = attributes & !FILE_ATTRIBUTE_HIDDEN;
        assert((r & 0x2u32 == 0) && r & !0x2u32 == attributes & !0x2u32) by (bit_vector)
            requires
                r == attributes & !0x2u32,
        ;
        r
    }
}

/// The name of a process from the bytes of its `szExeFile` field: the
/// bytes before the first zero, decoded as UTF-8 with replacement.
pub fn process_name(exe_file: &[u8]) -> (s: String)
    ensures
        s@ == utf8_lossy(before_zero(exe_file@)),
{
    let mut end: usize = 0;
    while end < exe_file.len() && exe_file[end] != 0
        invariant
            end <= exe_file@.len(),
            forall|j: int| 0 <= j < end ==> exe_file@[j] != 0,
        decreases exe_file@.len() - end,
    {
        end += 1;
    }
    let mut bytes: Vec<u8> = Vec::new();
    let mut i: usize = 0;
    while i < end
        invariant
            i <= end <= exe_file@.len(),
            bytes@ == exe_file@.subrange(0, i as int),
        decreases end - i,
    {
        bytes.push(exe_file[i]);
        i += 1;
        assert(bytes@ =~= exe_file@.subrange(0, i as int));
    }
    proof {
        let s = exe_file@;
        if end < s.len() {
            assert(s[end as int] == 0);
            let k = choose|k: int| 0 <= k < s.len() && s[k] == 0 && forall|j: int| 0 <= j < k ==> s[j] != 0;
            assert(0 <= k < s.len() && s[k] == 0 && forall|j: int| 0 <= j < k ==> s[j] != 0);
            if k < end {
                assert(s[k] != 0);
            }
            if end < k {
                assert(s[end as int] != 0);
            }
            assert(k == end);
            assert(before_zero(s) == s.subrange(0, end as int));
        } else {
            assert(before_zero(s) =~= s.subrange(0, end as int));
        }
    }
    decode_utf8_lossy(bytes.as_slice())
}

/// The string a registry value holds, from the UTF-16 units read: one
/// trailing zero is dropped, and text with an unpaired surrogate is refused.
pub fn registry_value_text(units: &[u16]) -> (r: Result<String, ApiError>)
    ensures
        match utf16_strict(drop_terminator(units@)) {
            Some(t) => r matches Ok(s) && s@ == t,
            None => r == Err::<String, ApiError>(ApiError::InvalidUtf16),
        },
{
    let n = units.len();
    let end: usize = if n > 0 && units[n - 1] == 0 { n - 1 } else { n };
    let mut v: Vec<u16> = Vec::new();
    let mut i: usize = 0;
    while i < end
        invariant
            i <= end <= units@.len(),
            v@ == units@.subrange(0, i as int),
        decreases end - i,
    {
        v.push(units[i]);
        i += 1;
        assert(v@ =~= units@.subrange(0, i as int));
    }
    assert(v@ =~= drop_terminator(units@));
    match decode_utf16(v.as_slice()) {
        Some(s) => Ok(s),
        None => Err(ApiError::InvalidUtf16),
    }
}

/// The text of a path without the `\\?\` prefix, if it has one.
pub fn strip_verbatim_prefix(path: &str) -> (r: String)
    ensures
        r@ == strip_verbatim(path@),
{
    let v = chars_of(path);
    let p: Vec<char> = vec!['\\', '\\', '?', '\\'];
    if crate::text::starts_with(&v, &p) {
        string_of(&copy_range(&v, 4, v.len()))
    } else {
        string_of(&v)
    }
}

/// The final path name from what `GetFinalPathNameByHandleW` wrote: `len`
/// units of `buffer`; a length that fills the buffer is refused, as is text
/// with an unpaired surrogate; the `\\?\` prefix is removed.
pub fn final_path_from_wide(buffer: &[u16], len: usize) -> (r: Result<String, ApiError>)
    ensures
        len >= buffer@.len() ==> r == Err::<String, ApiError>(ApiError::BufferTooSmall),
        len < buffer@.len() ==> match utf16_strict(buffer@.subrange(0, len as int)) {
            Some(t) => r matches Ok(s) && s@ == strip_verbatim(t),
            None => r == Err::<String, ApiError>(ApiError::InvalidUtf16),
        },
{
    if len >= buffer.len() {
        return Err(ApiError::BufferTooSmall);
    }
    let mut v: Vec<u16> = Vec::new();
    let mut i: usize = 0;
    while i < len
        invariant
            i <= len < buffer@.len(),
            v@ == buffer@.subrange(0, i as int),
        decreases len - i,
    {
        v.push(buffer[i]);
        i += 1;
        assert(v@ =~= buffer@.subrange(0, i as int));
    }
    match decode_utf16(v.as_slice()) {
        Some(s) => Ok(strip_verbatim_prefix(s.as_str())),
        None => Err(ApiError::InvalidUtf16),
    }
}

} // verus!
