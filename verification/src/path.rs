//! A model of Windows paths as text.
//!
//! A path is split into components the way `std::path::Path` does on
//! Windows for drive-letter paths: an optional drive prefix (`C:`), a root
//! marker when a separator follows it, a leading `.` for relative paths,
//! and then the runs of characters between separators (`\` or `/`), with
//! interior `.` runs left out. The root marker is the empty sequence.
use vstd::prelude::*;
use crate::text::{chars_of, copy_range, matches_at, push_char, push_str, string_of, to_owned, views};

verus! {

/// `c` separates path components.
pub open spec fn is_sep(c: char) -> bool {
    c == '\\' || c == '/'
}

/// `c` is an ASCII letter.
pub open spec fn is_ascii_alpha(c: char) -> bool {
    ('a' <= c && c <= 'z') || ('A' <= c && c <= 'Z')
}

/// The path starts with a drive prefix such as `C:`.
pub open spec fn has_drive(s: Seq<char>) -> bool {
    s.len() >= 2 && is_ascii_alpha(s[0]) && s[1] == ':'
}

/// The text after the drive prefix, if any.
pub open spec fn after_drive(s: Seq<char>) -> Seq<char> {
    if has_drive(s) {
        s.subrange(2, s.len() as int)
    } else {
        s
    }
}

/// The maximal runs of non-separator characters of `s`.
pub open spec fn runs(s: Seq<char>) -> Seq<Seq<char>>
    decreases s.len(),
{
    if s.len() == 0 {
        Seq::empty()
    } else {
        let w = runs(s.drop_last());
        let c = s.last();
        if is_sep(c) {
            w
        } else if s.len() >= 2 && !is_sep(s[s.len() - 2]) {
            w.update(w.len() - 1, w.last().push(c))
        } else {
            w.push(seq![c])
        }
    }
}

/// A run that names the current directory.
pub open spec fn is_dot(r: Seq<char>) -> bool {
    r == seq!['.']
}

/// The named components of a path: its runs without `.` runs.
pub open spec fn normal_parts(s: Seq<char>) -> Seq<Seq<char>> {
    runs(after_drive(s)).filter(|r: Seq<char>| !is_dot(r))
}

/// The path has a root after its drive prefix.
pub open spec fn has_root(s: Seq<char>) -> bool {
    let rest = after_drive(s);
    rest.len() > 0 && is_sep(rest[0])
}

/// A relative path that starts with a `.` component.
pub open spec fn has_cur_dir(s: Seq<char>) -> bool {
    let rest = after_drive(s);
    !has_root(s) && rest.len() > 0 && rest[0] == '.' && (rest.len() == 1 || is_sep(rest[1]))
}

/// The components of a path, as `Path::components` lists them.
pub open spec fn components(s: Seq<char>) -> Seq<Seq<char>> {
    let pre = if has_drive(s) { seq![s.subrange(0, 2)] } else { Seq::empty() };
    let root = if has_root(s) { seq![Seq::<char>::empty()] } else { Seq::empty() };
    let cur = if has_cur_dir(s) { seq![seq!['.']] } else { Seq::empty() };
    pre + root + cur + normal_parts(s)
}

/// `Path::file_name`: the last component when it is a name.
pub open spec fn file_name(s: Seq<char>) -> Option<Seq<char>> {
    let n = normal_parts(s);
    if n.len() > 0 && n.last() != seq!['.', '.'] {
        Some(n.last())
    } else {
        None
    }
}

// ---------------------------------------------------------------------------

/// The runs of non-separator characters of a path.
pub fn runs_chars(s: &Vec<char>) -> (r: Vec<Vec<char>>)
    ensures
        views(r@) == runs(s@),
{
    let mut out: Vec<Vec<char>> = Vec::new();
    let mut i: usize = 0;
    assert(views(out@) =~= runs(s@.subrange(0, 0)));
    while i < s.len()
        invariant
            i <= s.len(),
            views(out@) == runs(s@.subrange(0, i as int)),
            i > 0 && !is_sep(s@[i - 1]) ==> out@.len() > 0,
        decreases s.len() - i,
    {
        let c = s[i];
        let ghost pre = s@.subrange(0, i as int);
        let ghost old_out = out@;
        assert(s@.subrange(0, i + 1).drop_last() =~= pre);
        assert(s@.subrange(0, i + 1).last() == c);
        if c == '\\' || c == '/' {
        } else if i > 0 && !(s[i - 1] == '\\' || s[i - 1] == '/') {
            assert(s@.subrange(0, i + 1)[i - 1] == s@[i - 1]);
            let mut last = out.pop().unwrap();
            let ghost old_last = last@;
            last.push(c);
            out.push(last);
            assert(views(out@) =~= views(old_out).update(
                views(old_out).len() - 1,
                old_last.push(c),
            ));
        } else {
            let mut w: Vec<char> = Vec::new();
            w.push(c);
            out.push(w);
            assert(views(out@) =~= views(old_out).push(seq![c]));
        }
        i += 1;
    }
    assert(s@.subrange(0, s.len() as int) =~= s@);
    out
}

/// Whether a character vector is the single character `.`.
fn is_dot_chars(r: &Vec<char>) -> (b: bool)
    ensures
        b == is_dot(r@),
{
    if r.len() == 1 && r[0] == '.' {
        assert(r@ =~= seq!['.']);
        true
    } else {
        false
    }
}

/// The text of a path after its drive prefix.
pub(crate) fn after_drive_chars(s: &Vec<char>) -> (r: Vec<char>)
    ensures
        r@ == after_drive(s@),
{
    if drive_present(s) {
        copy_range(s, 2, s.len())
    } else {
        copy_range(s, 0, s.len())
    }
}

/// Whether a path starts with a drive prefix.
pub(crate) fn drive_present(s: &Vec<char>) -> (b: bool)
    ensures
        b == has_drive(s@),
{
    s.len() >= 2 && (('a' <= s[0] && s[0] <= 'z') || ('A' <= s[0] && s[0] <= 'Z')) && s[1] == ':'
}

/// The named components of a path.
pub fn normal_parts_chars(s: &Vec<char>) -> (r: Vec<Vec<char>>)
    ensures
        views(r@) == normal_parts(s@),
{
    let rest = after_drive_chars(s);
    let all = runs_chars(&rest);
    let ghost pred = |r: Seq<char>| !is_dot(r);
    let mut out: Vec<Vec<char>> = Vec::new();
    let mut i: usize = 0;
    assert(views(all@).subrange(0, 0).filter(pred) =~= Seq::<Seq<char>>::empty());
    while i < all.len()
        invariant
            i <= all.len(),
            views(out@) == views(all@).subrange(0, i as int).filter(pred),
            pred == (|r: Seq<char>| !is_dot(r)),
        decreases all.len() - i,
    {
        let ghost old_out = out@;
        let keep = !is_dot_chars(&all[i]);
        proof {
            let v = views(all@);
            assert(v.subrange(0, i + 1) =~= v.subrange(0, i as int).push(v[i as int]));
            v.subrange(0, i as int).lemma_filter_push(v[i as int], pred);
        }
        if keep {
            out.push(copy_range(&all[i], 0, all[i].len()));
            assert(all@[i as int]@.subrange(0, all@[i as int]@.len() as int) =~= all@[i as int]@);
            assert(views(out@) =~= views(old_out).push(views(all@)[i as int]));
        }
        i += 1;
    }
    assert(views(all@).subrange(0, all@.len() as int) =~= views(all@));
    out
}

/// The components of a path.
pub fn components_chars(s: &Vec<char>) -> (r: Vec<Vec<char>>)
    ensures
        views(r@) == components(s@),
{
    let mut out: Vec<Vec<char>> = Vec::new();
    let d = drive_present(s);
    if d {
        out.push(copy_range(s, 0, 2));
    }
    let rest = after_drive_chars(s);
    let root = rest.len() > 0 && (rest[0] == '\\' || rest[0] == '/');
    if root {
        out.push(Vec::new());
    }
    let cur = !root && rest.len() > 0 && rest[0] == '.' && (rest.len() == 1 || rest[1] == '\\'
        || rest[1] == '/');
    if cur {
        let mut dot: Vec<char> = Vec::new();
        dot.push('.');
        out.push(dot);
    }
    let ghost head = out@;
    let parts = normal_parts_chars(s);
    let mut i: usize = 0;
    while i < parts.len()
        invariant
            i <= parts.len(),
            views(out@) == views(head) + views(parts@).subrange(0, i as int),
        decreases parts.len() - i,
    {
        let ghost old_out = out@;
        let c = copy_range(&parts[i], 0, parts[i].len());
        assert(parts@[i as int]@.subrange(0, parts@[i as int]@.len() as int) =~= parts@[i as int]@);
        out.push(c);
        assert(views(out@) =~= views(old_out).push(views(parts@)[i as int]));
        assert(views(parts@).subrange(0, i + 1) =~= views(parts@).subrange(0, i as int).push(
            views(parts@)[i as int],
        ));
        i += 1;
    }
    assert(views(parts@).subrange(0, parts@.len() as int) =~= views(parts@));
    proof {
        let pre = if has_drive(s@) { seq![s@.subrange(0, 2)] } else { Seq::<Seq<char>>::empty() };
        let rt = if has_root(s@) { seq![Seq::<char>::empty()] } else { Seq::<Seq<char>>::empty() };
        let cd = if has_cur_dir(s@) { seq![seq!['.']] } else { Seq::<Seq<char>>::empty() };
        assert(views(head) =~= pre + rt + cd);
        assert(views(out@) =~= pre + rt + cd + normal_parts(s@));
    }
    out
}

/// Equality of character vectors.
pub fn vec_eq(a: &Vec<char>, b: &Vec<char>) -> (r: bool)
    ensures
        r == (a@ == b@),
{
    if a.len() != b.len() {
        return false;
    }
    let r = matches_at(a, b, 0);
    proof {
        assert(a@.subrange(0, b@.len() as int) =~= a@);
    }
    r
}

/// `Path::file_name` on path text.
pub fn file_name_of(path: &str) -> (r: Option<String>)
    ensures
        match file_name(path@) {
            Some(f) => r matches Some(s) && s@ == f,
            None => r is None,
        },
{
    let parts = normal_parts_chars(&chars_of(path));
    if parts.len() == 0 {
        return None;
    }
    let last = &parts[parts.len() - 1];
    if last.len() == 2 && last[0] == '.' && last[1] == '.' {
        assert(last@ =~= seq!['.', '.']);
        return None;
    }
    assert(last@ != seq!['.', '.']);
    Some(string_of(last))
}


/// The path is a bare drive prefix such as `C:`.
pub open spec fn is_drive_only(s: Seq<char>) -> bool {
    s.len() == 2 && has_drive(s)
}

/// `child` (a relative path) joined onto `base`: a `\` goes between them
/// unless `base` is empty, already ends with a separator, or is a bare
/// drive prefix.
pub open spec fn join_child(base: Seq<char>, child: Seq<char>) -> Seq<char> {
    if base.len() == 0 || is_sep(base.last()) || is_drive_only(base) {
        base + child
    } else {
        base + seq!['\\'] + child
    }
}

/// Join a relative path onto a base path.
pub fn join_path(base: &str, child: &str) -> (r: String)
    ensures
        r@ == join_child(base@, child@),
{
    let b = chars_of(base);
    let n = b.len();
    let ends_sep = n > 0 && (b[n - 1] == '\\' || b[n - 1] == '/');
    let drive_only = n == 2 && ((('a' <= b[0] && b[0] <= 'z') || ('A' <= b[0] && b[0] <= 'Z')) && b[1] == ':');
    let mut r = to_owned(base);
    if n > 0 && !ends_sep && !drive_only {
        push_char(&mut r, '\\');
    }
    push_str(&mut r, child);
    proof {
        if n > 0 && !ends_sep && !drive_only {
            assert(r@ =~= base@ + seq!['\\'] + child@);
        } else {
            assert(r@ =~= base@ + child@);
        }
    }
    r
}

/// The path starts with two separators: a UNC, verbatim or device prefix.
pub open spec fn has_double_sep(s: Seq<char>) -> bool {
    s.len() >= 2 && is_sep(s[0]) && is_sep(s[1])
}

/// `Path::is_absolute` on Windows: a drive prefix followed by a separator,
/// or a prefix that starts with two separators.
pub open spec fn is_absolute(s: Seq<char>) -> bool {
    has_double_sep(s) || (has_drive(s) && s.len() >= 3 && is_sep(s[2]))
}

/// `Path::join` on Windows for a base with no prefix or a drive prefix: a
/// child that is absolute or has a prefix replaces the base; a child that
/// starts with a separator keeps only the base's drive; any other child is
/// appended after a separator.
pub open spec fn push_path(base: Seq<char>, child: Seq<char>) -> Seq<char> {
    if is_absolute(child) || has_drive(child) || has_double_sep(child) {
        child
    } else if child.len() > 0 && is_sep(child[0]) {
        if has_drive(base) {
            base.subrange(0, 2) + child
        } else {
            child
        }
    } else {
        join_child(base, child)
    }
}

/// `c` separates path components.
fn is_sep_char(c: char) -> (b: bool)
    ensures
        b == is_sep(c),
{
    c == '\\' || c == '/'
}

/// The path starts with a drive prefix.
fn has_drive_chars(v: &Vec<char>) -> (b: bool)
    ensures
        b == has_drive(v@),
{
    v.len() >= 2 && ((('a' <= v[0] && v[0] <= 'z') || ('A' <= v[0] && v[0] <= 'Z')) && v[1] == ':')
}

/// Whether a path is absolute (`Path::is_absolute` on Windows).
pub fn path_is_absolute(path: &str) -> (b: bool)
    ensures
        b == is_absolute(path@),
{
    let v = chars_of(path);
    (v.len() >= 2 && is_sep_char(v[0]) && is_sep_char(v[1])) || (has_drive_chars(&v) && v.len() >= 3
        && is_sep_char(v[2]))
}

/// Join a path onto a base (`Path::join` on Windows).
pub fn push_path_str(base: &str, child: &str) -> (r: String)
    ensures
        r@ == push_path(base@, child@),
{
    let c = chars_of(child);
    let b = chars_of(base);
    if path_is_absolute(child) || has_drive_chars(&c) || (c.len() >= 2 && is_sep_char(c[0]) && is_sep_char(c[1])) {
        to_owned(child)
    } else if c.len() > 0 && is_sep_char(c[0]) {
        if has_drive_chars(&b) {
            let mut r = string_of(&copy_range(&b, 0, 2));
            push_str(&mut r, child);
            r
        } else {
            to_owned(child)
        }
    } else {
        join_path(base, child)
    }
}

/// The length of the drive prefix: 2 or 0.
pub open spec fn drive_len(s: Seq<char>) -> int {
    if has_drive(s) { 2 } else { 0 }
}

/// Where the body of a path starts: after its drive prefix, its root and
/// a leading `.` component.
pub open spec fn body_start(s: Seq<char>) -> int {
    drive_len(s) + (if has_root(s) { 1int } else { 0int }) + (if has_cur_dir(s) { 1int } else { 0int })
}

/// The index of the last separator in `s[lb..end]`, or `lb - 1` when there
/// is none.
pub open spec fn last_sep(s: Seq<char>, lb: int, end: int) -> int
    decreases end - lb,
{
    if end <= lb {
        lb - 1
    } else if is_sep(s[end - 1]) {
        end - 1
    } else {
        last_sep(s, lb, end - 1)
    }
}

/// Where the last component of `s[..n]` starts its cut: at its separator,
/// or at `lb` when the body holds no separator.
pub open spec fn cut_point(s: Seq<char>, lb: int, n: int) -> int {
    let k = last_sep(s, lb, n);
    if k >= lb { k } else { lb }
}

/// The length of `s[..n]` once its trailing empty and `.` components are
/// removed, down to `lb`.
pub open spec fn trim_len(s: Seq<char>, lb: int, n: int) -> int
    decreases n,
{
    if n <= lb || lb < 0 {
        n
    } else {
        let k = last_sep(s, lb, n);
        if k + 1 == n || (k + 2 == n && s[n - 1] == '.') {
            if cut_point(s, lb, n) < n {
                trim_len(s, lb, cut_point(s, lb, n))
            } else {
                n
            }
        } else {
            n
        }
    }
}

/// `Path::parent` on the path model: the path without its last component,
/// with the empty and `.` components before it removed; nothing when the
/// path ends in its root or drive prefix, or is empty.
pub open spec fn parent_text(s: Seq<char>) -> Option<Seq<char>> {
    let lb = body_start(s);
    let t = trim_len(s, lb, s.len() as int);
    if t > lb {
        Some(s.subrange(0, trim_len(s, lb, cut_point(s, lb, t))))
    } else if has_cur_dir(s) {
        Some(s.subrange(0, drive_len(s)))
    } else {
        None
    }
}

/// The last separator in `s[lb..end]`, and whether there is one.
fn last_sep_exec(s: &Vec<char>, lb: usize, end: usize) -> (r: (usize, bool))
    requires
        lb <= end <= s@.len(),
    ensures
        r.0 as int == cut_point(s@, lb as int, end as int),
        r.1 == (last_sep(s@, lb as int, end as int) >= lb),
        r.1 ==> r.0 as int == last_sep(s@, lb as int, end as int) && r.0 < end,
        !r.1 ==> last_sep(s@, lb as int, end as int) == lb - 1 && r.0 == lb,
{
    let mut e: usize = end;
    while e > lb
        invariant
            lb <= e <= end <= s@.len(),
            last_sep(s@, lb as int, end as int) == last_sep(s@, lb as int, e as int),
        decreases e,
    {
        if s[e - 1] == '\\' || s[e - 1] == '/' {
            return (e - 1, true);
        }
        e -= 1;
    }
    (lb, false)
}

/// The length of `s[..n]` once its trailing empty and `.` components are
/// removed, down to `lb`.
fn trim_len_exec(s: &Vec<char>, lb: usize, n: usize) -> (r: usize)
    requires
        lb <= n <= s@.len(),
    ensures
        r as int == trim_len(s@, lb as int, n as int),
        lb <= r <= n,
{
    let mut m: usize = n;
    while m > lb
        invariant
            lb <= m <= n <= s@.len(),
            trim_len(s@, lb as int, n as int) == trim_len(s@, lb as int, m as int),
        decreases m,
    {
        let (k, found) = last_sep_exec(s, lb, m);
        let empty = found && m - k == 1;
        let dot = if found { m - k == 2 && s[m - 1] == '.' } else { m - lb == 1 && s[m - 1] == '.' };
        if (empty || dot) && k < m {
            m = k;
        } else {
            return m;
        }
    }
    m
}

/// `Path::parent` on path text (for paths without a UNC or verbatim
/// prefix, which this model does not describe).
pub fn parent_of(path: &str) -> (r: Option<String>)
    ensures
        match parent_text(path@) {
            Some(p) => r matches Some(s) && s@ == p,
            None => r is None,
        },
{
    let s = chars_of(path);
    let d: usize = if drive_present(&s) { 2 } else { 0 };
    let rest = after_drive_chars(&s);
    let root = rest.len() > 0 && (rest[0] == '\\' || rest[0] == '/');
    let cur = !root && rest.len() > 0 && rest[0] == '.' && (rest.len() == 1 || rest[1] == '\\' || rest[1] == '/');
    let lb: usize = d + (if root { 1 } else { 0 }) + (if cur { 1 } else { 0 });
    assert(lb as int == body_start(s@));
    let t = trim_len_exec(&s, lb, s.len());
    if t > lb {
        let (cut, _found) = last_sep_exec(&s, lb, t);
        let n2 = trim_len_exec(&s, lb, cut);
        Some(string_of(&copy_range(&s, 0, n2)))
    } else if cur {
        Some(string_of(&copy_range(&s, 0, d)))
    } else {
        None
    }
}

} // verus!
