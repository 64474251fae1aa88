//! Whether a directory shows a project's signature file: a plain name must
//! exist in it (or be its own name), a glob is matched against its path.
use vstd::prelude::*;
use crate::path::{file_name, file_name_of, push_path, push_path_str};
use crate::text::{contains_seq, replace_all, replace_seq, str_contains, str_eq};

verus! {

/// A name for what `regex::Regex::new` followed by `Regex::is_match`
/// gives: whether the pattern matches somewhere in the text, or nothing
/// when the pattern is not a valid regular expression.
pub uninterp spec fn regex_search(pattern: Seq<char>, text: Seq<char>) -> Option<bool>;

/// Compiles the pattern with `regex::Regex::new` and calls `is_match`; the
/// outcome is named by `regex_search`.
#[verifier::external_body]
fn regex_is_match(pattern: &str, text: &str) -> (r: Option<bool>)
    ensures
        r == regex_search(pattern@, text@),
{
    match regex::Regex::new(pattern) {
        Ok(re) => Some(re.is_match(text)),
        Err(_) => None,
    }
}

/// The regular expression a glob stands for: `.` escaped, `*` as `.*`,
/// `?` as `.`.
pub open spec fn glob_regex(glob: Seq<char>) -> Seq<char> {
    replace_seq(replace_seq(replace_seq(glob, "."@, "\\."@), "*"@, ".*"@), "?"@, "."@)
}

/// The regular expression a glob stands for.
pub fn glob_to_regex(glob: &str) -> (r: String)
    ensures
        r@ == glob_regex(glob@),
{
    proof {
        reveal_strlit(".");
        reveal_strlit("*");
        reveal_strlit("?");
    }
    let a = replace_all(glob, ".", "\\.");
    let b = replace_all(a.as_str(), "*", ".*");
    replace_all(b.as_str(), "?", ".")
}

/// Whether a directory matches a signature pattern: a glob (with `*`) is
/// searched for in the directory's path (no match when it does not compile);
/// a plain name matches when the file exists in the directory
/// (`joined_exists`) or is the directory's own name.
pub open spec fn pattern_spec(path: Seq<char>, pattern: Seq<char>, joined_exists: bool) -> bool {
    if contains_seq(pattern, seq!['*']) {
        regex_search(glob_regex(pattern), path) == Some(true)
    } else {
        joined_exists || file_name(path) == Some(pattern)
    }
}

/// The file whose existence a plain pattern asks about.
pub fn pattern_candidate(path: &str, pattern: &str) -> (r: String)
    ensures
        r@ == push_path(path@, pattern@),
{
    push_path_str(path, pattern)
}

/// Whether a directory matches a signature pattern.
pub fn matches_pattern(path: &str, pattern: &str, joined_exists: bool) -> (b: bool)
    ensures
        b == pattern_spec(path@, pattern@, joined_exists),
{
    proof {
        reveal_strlit("*");
        assert("*"@ =~= seq!['*']);
    }
    if str_contains(pattern, "*") {
        let re = glob_to_regex(pattern);
        match regex_is_match(re.as_str(), path) {
            Some(m) => m,
            None => false,
        }
    } else {
        if joined_exists {
            return true;
        }
        match file_name_of(path) {
            Some(n) => str_eq(n.as_str(), pattern),
            None => false,
        }
    }
}

/// The number of set flags.
pub open spec fn count_set(flags: Seq<bool>) -> nat
    decreases flags.len(),
{
    if flags.len() == 0 {
        0
    } else {
        count_set(flags.drop_last()) + if flags.last() { 1nat } else { 0nat }
    }
}

/// How many of a signature's patterns matched.
pub fn count_matches(matched: &[bool]) -> (n: usize)
    ensures
        n == count_set(matched@),
{
    let mut n: usize = 0;
    let mut i: usize = 0;
    while i < matched.len()
        invariant
            i <= matched@.len(),
            n == count_set(matched@.subrange(0, i as int)),
            n <= i,
        decreases matched@.len() - i,
    {
        assert(matched@.subrange(0, i + 1).drop_last() =~= matched@.subrange(0, i as int));
        if matched[i] {
            n += 1;
        }
        i += 1;
    }
    assert(matched@.subrange(0, matched@.len() as int) =~= matched@);
    n
}

} // verus!
