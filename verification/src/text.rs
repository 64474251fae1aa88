//! Character-level text helpers shared by the parsers of the library.
//!
//! Every helper works on the `Seq<char>` view of a string and states its
//! result as a spec function over that view.
use vstd::prelude::*;

verus! {

// ---------------------------------------------------------------------------
// Specifications
// ---------------------------------------------------------------------------

/// `p` is a prefix of `s`.
pub open spec fn has_prefix(s: Seq<char>, p: Seq<char>) -> bool {
    p.len() <= s.len() && s.subrange(0, p.len() as int) == p
}

/// `p` is a suffix of `s`.
pub open spec fn has_suffix(s: Seq<char>, p: Seq<char>) -> bool {
    p.len() <= s.len() && s.subrange(s.len() - p.len(), s.len() as int) == p
}

/// `p` occurs in `s` starting at index `i`.
pub open spec fn occurs_at(s: Seq<char>, p: Seq<char>, i: int) -> bool {
    0 <= i && i + p.len() <= s.len() && s.subrange(i, i + p.len()) == p
}

/// `p` occurs somewhere in `s`.
pub open spec fn contains_seq(s: Seq<char>, p: Seq<char>) -> bool {
    exists|i: int| occurs_at(s, p, i)
}

/// `i` is the first index at which `p` occurs in `s`.
pub open spec fn is_first_occurrence(s: Seq<char>, p: Seq<char>, i: int) -> bool {
    occurs_at(s, p, i) && forall|j: int| 0 <= j < i ==> !occurs_at(s, p, j)
}

/// The characters that `char::is_whitespace` accepts: the Unicode
/// `White_Space` property.
pub open spec fn is_ws(c: char) -> bool {
    ||| c == '\t' || c == '\n' || c == '\u{0B}' || c == '\u{0C}' || c == '\r'
    ||| c == ' ' || c == '\u{85}' || c == '\u{A0}' || c == '\u{1680}'
    ||| ('\u{2000}' <= c && c <= '\u{200A}')
    ||| c == '\u{2028}' || c == '\u{2029}' || c == '\u{202F}' || c == '\u{205F}'
    ||| c == '\u{3000}'
}

/// `s` without its leading whitespace.
pub open spec fn trim_start(s: Seq<char>) -> Seq<char>
    decreases s.len(),
{
    if s.len() > 0 && is_ws(s[0]) {
        trim_start(s.drop_first())
    } else {
        s
    }
}

/// `s` without its trailing whitespace.
pub open spec fn trim_end(s: Seq<char>) -> Seq<char>
    decreases s.len(),
{
    if s.len() > 0 && is_ws(s.last()) {
        trim_end(s.drop_last())
    } else {
        s
    }
}

/// `s` without leading and trailing whitespace (`str::trim`).
pub open spec fn trim(s: Seq<char>) -> Seq<char> {
    trim_end(trim_start(s))
}

/// The pieces of `s` between occurrences of `sep` (`str::split` with a char).
pub open spec fn split_on(s: Seq<char>, sep: char) -> Seq<Seq<char>>
    decreases s.len(),
{
    if s.len() == 0 {
        seq![Seq::<char>::empty()]
    } else {
        let r = split_on(s.drop_last(), sep);
        if s.last() == sep {
            r.push(Seq::<char>::empty())
        } else {
            r.update(r.len() - 1, r.last().push(s.last()))
        }
    }
}

/// `s` with one trailing `'\r'` removed, if there is one.
pub open spec fn strip_cr(s: Seq<char>) -> Seq<char> {
    if s.len() > 0 && s.last() == '\r' {
        s.drop_last()
    } else {
        s
    }
}

/// The lines of `s` as `str::lines` yields them: split at `'\n'`, a `'\r'`
/// before a `'\n'` removed, and no empty line after a final `'\n'`.
pub open spec fn lines_of(s: Seq<char>) -> Seq<Seq<char>> {
    if s.len() == 0 {
        Seq::empty()
    } else {
        let p = split_on(s, '\n');
        let n = p.len();
        let k = if p[n - 1].len() == 0 { n - 1 } else { n as int };
        Seq::new(k as nat, |i: int| if i < n - 1 { strip_cr(p[i]) } else { p[i] })
    }
}

/// The maximal runs of non-whitespace characters of `s`
/// (`str::split_whitespace`).
pub open spec fn words(s: Seq<char>) -> Seq<Seq<char>>
    decreases s.len(),
{
    if s.len() == 0 {
        Seq::empty()
    } else {
        let w = words(s.drop_last());
        let c = s.last();
        if is_ws(c) {
            w
        } else if s.len() >= 2 && !is_ws(s[s.len() - 2]) {
            w.update(w.len() - 1, w.last().push(c))
        } else {
            w.push(seq![c])
        }
    }
}

/// Value of a digit character.
pub open spec fn digit_value(c: char) -> nat {
    (c as nat - '0' as nat) as nat
}

/// `c` is an ASCII decimal digit.
pub open spec fn is_digit(c: char) -> bool {
    '0' <= c && c <= '9'
}

/// All characters of `s` are ASCII decimal digits.
pub open spec fn all_digits(s: Seq<char>) -> bool {
    forall|i: int| 0 <= i < s.len() ==> is_digit(#[trigger] s[i])
}

/// The number written by the decimal digits `s`.
pub open spec fn digits_value(s: Seq<char>) -> nat
    decreases s.len(),
{
    if s.len() == 0 {
        0
    } else {
        digits_value(s.drop_last()) * 10 + digit_value(s.last())
    }
}

/// What `FromStr` for an unsigned integer type with maximum `max` gives for
/// `s`: an optional `'+'`, then at least one decimal digit and nothing else,
/// and a value of at most `max`.
pub open spec fn parse_unsigned(s: Seq<char>, max: nat) -> Option<nat> {
    let d = if s.len() > 0 && s[0] == '+' { s.drop_first() } else { s };
    if d.len() > 0 && all_digits(d) && digits_value(d) <= max {
        Some(digits_value(d))
    } else {
        None
    }
}

/// The optional string holds the text `t`.
pub open spec fn some_text(o: Option<String>, t: Seq<char>) -> bool {
    match o {
        Some(x) => x@ == t,
        None => false,
    }
}

/// A name for what `str::to_lowercase` returns: the Unicode lowercase
/// mapping of each character of the input.
pub uninterp spec fn lowercase(s: Seq<char>) -> Seq<char>;

// ---------------------------------------------------------------------------
// Lemmas
// ---------------------------------------------------------------------------

/// A longer digit string is worth at least as much as its prefix.
pub proof fn lemma_digits_value_grows(s: Seq<char>, k: int)
    requires
        0 <= k <= s.len(),
    ensures
        digits_value(s.subrange(0, k)) <= digits_value(s),
    decreases s.len() - k,
{
    if k < s.len() {
        lemma_digits_value_grows(s, k + 1);
        assert(s.subrange(0, k + 1).drop_last() =~= s.subrange(0, k));
    } else {
        assert(s.subrange(0, k) =~= s);
    }
}

/// `split_on` always yields at least one piece.
pub proof fn lemma_split_on_nonempty(s: Seq<char>, sep: char)
    ensures
        split_on(s, sep).len() >= 1,
    decreases s.len(),
{
    if s.len() > 0 {
        lemma_split_on_nonempty(s.drop_last(), sep);
    }
}

// ---------------------------------------------------------------------------
// Trusted wrappers around std
// ---------------------------------------------------------------------------

/// `c` with ASCII capitals made small.
pub open spec fn ascii_lower(c: char) -> char {
    if 'A' <= c && c <= 'Z' {
        ((c as nat) + 32) as char
    } else {
        c
    }
}

/// `s` with ASCII capitals made small.
pub open spec fn fold_case(s: Seq<char>) -> Seq<char> {
    s.map_values(|c: char| ascii_lower(c))
}

/// The text holds only ASCII characters.
pub open spec fn all_ascii(s: Seq<char>) -> bool {
    forall|i: int| 0 <= i < s.len() ==> (#[trigger] s[i] as nat) < 128
}

/// Calls `str::to_lowercase`; its result is named by `lowercase`. std
/// documents that it lowercases ASCII characters as `to_ascii_lowercase`
/// does (A to Z become a to z, other ASCII stays), so on ASCII text the
/// result is stated; on other text only the name is.
#[verifier::external_body]
pub(crate) fn to_lower(s: &str) -> (r: String)
    ensures
        r@ == lowercase(s@),
        all_ascii(s@) ==> r@ == fold_case(s@),
{
    s.to_lowercase()
}

/// A UTF-16 high (leading) surrogate.
pub open spec fn is_high_surrogate(u: u16) -> bool {
    0xD800 <= u && u <= 0xDBFF
}

/// A UTF-16 low (trailing) surrogate.
pub open spec fn is_low_surrogate(u: u16) -> bool {
    0xDC00 <= u && u <= 0xDFFF
}

/// The character a surrogate pair encodes.
pub open spec fn surrogate_pair_char(high: u16, low: u16) -> char {
    (0x10000 + (high - 0xD800) * 0x400 + (low - 0xDC00)) as char
}

/// The decoding of UTF-16 code units, with U+FFFD for each unpaired
/// surrogate: a high surrogate followed by a low one is one character, any
/// other surrogate is U+FFFD, any other unit is the character of that value.
pub open spec fn utf16_lossy(units: Seq<u16>) -> Seq<char>
    decreases units.len(),
{
    if units.len() == 0 {
        Seq::empty()
    } else if units.len() > 1 && is_high_surrogate(units[0]) && is_low_surrogate(units[1]) {
        seq![surrogate_pair_char(units[0], units[1])] + utf16_lossy(units.subrange(2, units.len() as int))
    } else if is_high_surrogate(units[0]) || is_low_surrogate(units[0]) {
        seq!['\u{FFFD}'] + utf16_lossy(units.drop_first())
    } else {
        seq![units[0] as char] + utf16_lossy(units.drop_first())
    }
}

/// Calls `String::from_utf16_lossy`, which decodes UTF-16 as `utf16_lossy`
/// says, replacing each unpaired surrogate with U+FFFD.
#[verifier::external_body]
pub(crate) fn decode_utf16_lossy(units: &[u16]) -> (s: String)
    ensures
        s@ == utf16_lossy(units@),
{
    String::from_utf16_lossy(units)
}

/// Calls `String::push`, which appends one character.
#[verifier::external_body]
pub(crate) fn push_char(s: &mut String, c: char)
    ensures
        final(s)@ == old(s)@.push(c),
{
    s.push(c)
}

// ---------------------------------------------------------------------------
// Executable helpers
// ---------------------------------------------------------------------------

/// Copy the characters of a string slice into a vector.
pub fn chars_of(s: &str) -> (v: Vec<char>)
    ensures
        v@ == s@,
{
    let mut v: Vec<char> = Vec::new();
    for c in it: s.chars()
        invariant
            v@ == it.seq().take(it.index() as int),
            it.seq() == s@,
    {
        v.push(c);
    }
    v
}

/// Build a `String` from characters.
pub fn string_of(v: &Vec<char>) -> (s: String)
    ensures
        s@ == v@,
{
    let mut s = String::new();
    let mut i: usize = 0;
    while i < v.len()
        invariant
            i <= v.len(),
            s@ == v@.subrange(0, i as int),
        decreases v.len() - i,
    {
        push_char(&mut s, v[i]);
        i += 1;
        assert(s@ =~= v@.subrange(0, i as int));
    }
    assert(v@.subrange(0, v.len() as int) =~= v@);
    s
}

/// Append the characters of `t` to `s`.
pub fn push_str(s: &mut String, t: &str)
    ensures
        final(s)@ == old(s)@ + t@,
{
    let v = chars_of(t);
    let ghost start = s@;
    let mut i: usize = 0;
    while i < v.len()
        invariant
            i <= v.len(),
            v@ == t@,
            s@ == start + v@.subrange(0, i as int),
        decreases v.len() - i,
    {
        push_char(s, v[i]);
        i += 1;
        assert(s@ =~= start + v@.subrange(0, i as int));
    }
    assert(v@.subrange(0, v.len() as int) =~= v@);
}

/// The string `a` followed by `b`.
pub fn concat(a: &str, b: &str) -> (r: String)
    ensures
        r@ == a@ + b@,
{
    let mut r = String::new();
    push_str(&mut r, a);
    push_str(&mut r, b);
    assert(r@ =~= a@ + b@);
    r
}

/// A copy of a string slice.
pub fn to_owned(s: &str) -> (r: String)
    ensures
        r@ == s@,
{
    let mut r = String::new();
    push_str(&mut r, s);
    assert(r@ =~= s@);
    r
}

/// `char::is_whitespace`.
pub fn is_whitespace(c: char) -> (b: bool)
    ensures
        b == is_ws(c),
{
    c == '\t' || c == '\n' || c == '\u{0B}' || c == '\u{0C}' || c == '\r' || c == ' ' || c
        == '\u{85}' || c == '\u{A0}' || c == '\u{1680}' || ('\u{2000}' <= c && c <= '\u{200A}')
        || c == '\u{2028}' || c == '\u{2029}' || c == '\u{202F}' || c == '\u{205F}' || c
        == '\u{3000}'
}

/// Whether `p` occurs in `s` at index `i`.
pub fn matches_at(s: &Vec<char>, p: &Vec<char>, i: usize) -> (b: bool)
    ensures
        b == occurs_at(s@, p@, i as int),
{
    if i > s.len() || p.len() > s.len() - i {
        return false;
    }
    let mut k: usize = 0;
    while k < p.len()
        invariant
            k <= p.len(),
            i + p.len() <= s.len(),
            forall|j: int| 0 <= j < k ==> s@[i + j] == p@[j],
        decreases p.len() - k,
    {
        if s[i + k] != p[k] {
            assert(s@.subrange(i as int, i + p.len())[k as int] != p@[k as int]);
            return false;
        }
        k += 1;
    }
    assert(s@.subrange(i as int, i + p.len()) =~= p@);
    true
}

/// `str::starts_with` on character vectors.
pub fn starts_with(s: &Vec<char>, p: &Vec<char>) -> (b: bool)
    ensures
        b == has_prefix(s@, p@),
{
    matches_at(s, p, 0)
}

/// `str::ends_with` on character vectors.
pub fn ends_with(s: &Vec<char>, p: &Vec<char>) -> (b: bool)
    ensures
        b == has_suffix(s@, p@),
{
    if p.len() > s.len() {
        false
    } else {
        matches_at(s, p, s.len() - p.len())
    }
}

/// The first index at which `p` occurs in `s` (`str::find`, counted in
/// characters).
pub fn find(s: &Vec<char>, p: &Vec<char>) -> (r: Option<usize>)
    ensures
        r matches Some(i) ==> is_first_occurrence(s@, p@, i as int),
        r is None ==> !contains_seq(s@, p@),
{
    if p.len() == 0 {
        assert(s@.subrange(0, 0) =~= p@);
        return Some(0);
    }
    let mut i: usize = 0;
    while i < s.len()
        invariant
            p@.len() > 0,
            forall|j: int| 0 <= j < i ==> !occurs_at(s@, p@, j),
        decreases s.len() - i,
    {
        if matches_at(s, p, i) {
            return Some(i);
        }
        i += 1;
    }
    assert forall|j: int| !occurs_at(s@, p@, j) by {
        if 0 <= j && j < i {
        }
    }
    None
}

/// `str::contains` on character vectors.
pub fn contains(s: &Vec<char>, p: &Vec<char>) -> (b: bool)
    ensures
        b == contains_seq(s@, p@),
{
    match find(s, p) {
        Some(_) => true,
        None => false,
    }
}

/// `str::contains` on string slices.
pub fn str_contains(s: &str, p: &str) -> (b: bool)
    ensures
        b == contains_seq(s@, p@),
{
    contains(&chars_of(s), &chars_of(p))
}

/// `str::starts_with` on string slices.
pub fn str_starts_with(s: &str, p: &str) -> (b: bool)
    ensures
        b == has_prefix(s@, p@),
{
    starts_with(&chars_of(s), &chars_of(p))
}

/// `str::ends_with` on string slices.
pub fn str_ends_with(s: &str, p: &str) -> (b: bool)
    ensures
        b == has_suffix(s@, p@),
{
    ends_with(&chars_of(s), &chars_of(p))
}

/// String equality on slices.
pub fn str_eq(a: &str, b: &str) -> (r: bool)
    ensures
        r == (a@ == b@),
{
    let x = chars_of(a);
    let y = chars_of(b);
    if x.len() != y.len() {
        return false;
    }
    let r = matches_at(&x, &y, 0);
    proof {
        if r {
            assert(x@.subrange(0, y@.len() as int) =~= x@);
        } else {
            if a@ == b@ {
                assert(x@.subrange(0, y@.len() as int) =~= x@);
            }
        }
    }
    r
}


/// The views of a sequence of character vectors.
pub open spec fn views(v: Seq<Vec<char>>) -> Seq<Seq<char>> {
    v.map_values(|x: Vec<char>| x@)
}

/// A copy of `v[a..b]`.
pub fn copy_range(v: &Vec<char>, a: usize, b: usize) -> (r: Vec<char>)
    requires
        a <= b <= v.len(),
    ensures
        r@ == v@.subrange(a as int, b as int),
{
    let mut r: Vec<char> = Vec::new();
    let mut i = a;
    while i < b
        invariant
            a <= i <= b,
            b <= v.len(),
            r@ == v@.subrange(a as int, i as int),
        decreases b - i,
    {
        r.push(v[i]);
        i += 1;
        assert(r@ =~= v@.subrange(a as int, i as int));
    }
    r
}

/// `trim_start` drops exactly the leading whitespace run.
proof fn lemma_trim_start(s: Seq<char>, a: int)
    requires
        0 <= a <= s.len(),
        forall|j: int| 0 <= j < a ==> is_ws(s[j]),
        a == s.len() || !is_ws(s[a]),
    ensures
        trim_start(s) == s.subrange(a, s.len() as int),
    decreases a,
{
    if a == 0 {
        assert(s.subrange(0, s.len() as int) =~= s);
    } else {
        let t = s.drop_first();
        assert forall|j: int| 0 <= j < a - 1 implies is_ws(t[j]) by {
            assert(t[j] == s[j + 1]);
        }
        lemma_trim_start(t, a - 1);
        assert(t.subrange(a - 1, t.len() as int) =~= s.subrange(a, s.len() as int));
    }
}

/// `trim_end` drops exactly the trailing whitespace run.
proof fn lemma_trim_end(s: Seq<char>, b: int)
    requires
        0 <= b <= s.len(),
        forall|j: int| b <= j < s.len() ==> is_ws(s[j]),
        b == 0 || !is_ws(s[b - 1]),
    ensures
        trim_end(s) == s.subrange(0, b),
    decreases s.len() - b,
{
    if b == s.len() {
        assert(s.subrange(0, b) =~= s);
    } else {
        let t = s.drop_last();
        lemma_trim_end(t, b);
        assert(t.subrange(0, b) =~= s.subrange(0, b));
    }
}

/// `str::trim` on a character vector.
pub fn trim_chars(s: &Vec<char>) -> (r: Vec<char>)
    ensures
        r@ == trim(s@),
{
    let mut a: usize = 0;
    while a < s.len() && is_whitespace(s[a])
        invariant
            a <= s.len(),
            forall|j: int| 0 <= j < a ==> is_ws(s@[j]),
        decreases s.len() - a,
    {
        a += 1;
    }
    proof {
        lemma_trim_start(s@, a as int);
    }
    let ghost t = s@.subrange(a as int, s.len() as int);
    let mut b: usize = s.len();
    while b > a && is_whitespace(s[b - 1])
        invariant
            a <= b <= s.len(),
            forall|j: int| b <= j < s.len() ==> is_ws(s@[j]),
        decreases b - a,
    {
        b -= 1;
    }
    proof {
        assert forall|j: int| b - a <= j < t.len() implies is_ws(t[j]) by {
            assert(t[j] == s@[a + j]);
        }
        if b > a {
            assert(t[b - a - 1] == s@[b - 1]);
        }
        lemma_trim_end(t, b - a);
        assert(t.subrange(0, b - a) =~= s@.subrange(a as int, b as int));
    }
    copy_range(s, a, b)
}

/// `str::trim` on a string slice.
pub fn str_trim(s: &str) -> (r: String)
    ensures
        r@ == trim(s@),
{
    string_of(&trim_chars(&chars_of(s)))
}

/// `str::split` at a character, on a character vector.
pub fn split_chars(s: &Vec<char>, sep: char) -> (r: Vec<Vec<char>>)
    ensures
        views(r@) == split_on(s@, sep),
{
    let mut out: Vec<Vec<char>> = Vec::new();
    let mut cur: Vec<char> = Vec::new();
    let mut i: usize = 0;
    assert(s@.subrange(0, 0) =~= Seq::<char>::empty());
    assert(views(out@).push(cur@) =~= split_on(Seq::<char>::empty(), sep));
    while i < s.len()
        invariant
            i <= s.len(),
            views(out@).push(cur@) == split_on(s@.subrange(0, i as int), sep),
        decreases s.len() - i,
    {
        let c = s[i];
        let ghost pre = s@.subrange(0, i as int);
        let ghost old_out = out@;
        let ghost old_cur = cur@;
        assert(s@.subrange(0, i + 1).drop_last() =~= pre);
        if c == sep {
            out.push(cur);
            cur = Vec::new();
            assert(views(out@) =~= views(old_out).push(old_cur));
            assert(views(out@).push(cur@) =~= views(old_out).push(old_cur).push(
                Seq::<char>::empty(),
            ));
        } else {
            cur.push(c);
            assert(views(out@).push(cur@) =~= views(old_out).push(old_cur).update(
                views(old_out).len() as int,
                old_cur.push(c),
            ));
        }
        i += 1;
    }
    assert(s@.subrange(0, s.len() as int) =~= s@);
    let ghost last_out = out@;
    let ghost last_cur = cur@;
    out.push(cur);
    assert(views(out@) =~= views(last_out).push(last_cur));
    out
}

/// `str::lines` on a character vector.
pub fn lines_chars(s: &Vec<char>) -> (r: Vec<Vec<char>>)
    ensures
        views(r@) == lines_of(s@),
{
    let mut out: Vec<Vec<char>> = Vec::new();
    if s.len() == 0 {
        assert(views(out@) =~= lines_of(s@));
        return out;
    }
    let pieces = split_chars(s, '\n');
    proof {
        lemma_split_on_nonempty(s@, '\n');
    }
    let n = pieces.len();
    let k = if pieces[n - 1].len() == 0 { n - 1 } else { n };
    let ghost target = lines_of(s@);
    assert(pieces@[n - 1]@ == split_on(s@, '\n')[n - 1]);
    assert(target.len() == k);
    let mut i: usize = 0;
    while i < k
        invariant
            i <= k <= n,
            n == pieces@.len(),
            views(pieces@) == split_on(s@, '\n'),
            target == lines_of(s@),
            target.len() == k,
            s@.len() > 0,
            views(out@) == target.subrange(0, i as int),
        decreases k - i,
    {
        let p = &pieces[i];
        assert(p@ == split_on(s@, '\n')[i as int]);
        let line = if i + 1 < n && p.len() > 0 && p[p.len() - 1] == '\r' {
            copy_range(p, 0, p.len() - 1)
        } else {
            copy_range(p, 0, p.len())
        };
        proof {
            assert(p@.subrange(0, p@.len() as int) =~= p@);
            assert(p@.drop_last() =~= p@.subrange(0, p@.len() - 1));
            assert(line@ == target[i as int]);
        }
        let ghost old_out = out@;
        out.push(line);
        assert(views(out@) =~= views(old_out).push(line@));
        i += 1;
        assert(views(out@) =~= target.subrange(0, i as int));
    }
    assert(target.subrange(0, k as int) =~= target);
    out
}

/// `str::split_whitespace` on a character vector.
pub fn words_chars(s: &Vec<char>) -> (r: Vec<Vec<char>>)
    ensures
        views(r@) == words(s@),
{
    let mut out: Vec<Vec<char>> = Vec::new();
    let mut i: usize = 0;
    assert(views(out@) =~= words(s@.subrange(0, 0)));
    while i < s.len()
        invariant
            i <= s.len(),
            views(out@) == words(s@.subrange(0, i as int)),
            i > 0 && !is_ws(s@[i - 1]) ==> out@.len() > 0,
        decreases s.len() - i,
    {
        let c = s[i];
        let ghost pre = s@.subrange(0, i as int);
        let ghost old_out = out@;
        assert(s@.subrange(0, i + 1).drop_last() =~= pre);
        assert(s@.subrange(0, i + 1).last() == c);
        if is_whitespace(c) {
        } else if i > 0 && !is_whitespace(s[i - 1]) {
            assert(s@.subrange(0, i + 1)[i - 1] == s@[i - 1]);
            let mut last = out.pop().unwrap();
            let ghost old_last = last@;
            last.push(c);
            out.push(last);
            assert(views(out@) =~= views(old_out).update(
                views(old_out).len() - 1,
                old_last.push(c),
            ));
        } else {
            let mut w: Vec<char> = Vec::new();
            w.push(c);
            out.push(w);
            assert(views(out@) =~= views(old_out).push(seq![c]));
        }
        i += 1;
    }
    assert(s@.subrange(0, s.len() as int) =~= s@);
    out
}

/// Parse an unsigned decimal number no larger than `max`, as `FromStr` does
/// for the unsigned integer types.
pub fn parse_uint(s: &Vec<char>, max: u64) -> (r: Option<u64>)
    ensures
        match parse_unsigned(s@, max as nat) {
            Some(v) => r == Some(v as u64),
            None => r is None,
        },
{
    let start: usize = if s.len() > 0 && s[0] == '+' { 1 } else { 0 };
    let ghost d = if s@.len() > 0 && s@[0] == '+' { s@.drop_first() } else { s@ };
    assert(d =~= s@.subrange(start as int, s@.len() as int));
    if start >= s.len() {
        return None;
    }
    let mut acc: u64 = 0;
    let mut i: usize = start;
    assert(d.subrange(0, 0) =~= Seq::<char>::empty());
    while i < s.len()
        invariant
            start <= i <= s.len(),
            d == s@.subrange(start as int, s@.len() as int),
            d == (if s@.len() > 0 && s@[0] == '+' { s@.drop_first() } else { s@ }),
            acc as nat == digits_value(d.subrange(0, i - start)),
            acc <= max,
            forall|j: int| 0 <= j < i - start ==> is_digit(#[trigger] d[j]),
        decreases s.len() - i,
    {
        let c = s[i];
        assert(d[i - start] == c);
        if !('0' <= c && c <= '9') {
            assert(!all_digits(d));
            assert(parse_unsigned(s@, max as nat) is None);
            return None;
        }
        let dv: u64 = (c as u32 - '0' as u32) as u64;
        assert(d.subrange(0, i - start + 1).drop_last() =~= d.subrange(0, i - start));
        assert(d.subrange(0, i - start + 1).last() == c);
        if dv > max || acc > (max - dv) / 10 {
            proof {
                assert(digits_value(d.subrange(0, i - start + 1)) > max) by (nonlinear_arith)
                    requires
                        digits_value(d.subrange(0, i - start + 1)) == acc * 10 + dv,
                        dv > max || acc > (max - dv) / 10,
                ;
                lemma_digits_value_grows(d, i - start + 1);
                assert(digits_value(d) > max);
                assert(parse_unsigned(s@, max as nat) is None);
            }
            return None;
        }
        proof {
            assert(acc * 10 + dv <= max) by (nonlinear_arith)
                requires
                    dv <= max,
                    acc <= (max - dv) / 10,
            ;
        }
        acc = acc * 10 + dv;
        i += 1;
    }
    assert(d.subrange(0, i - start) =~= d);
    Some(acc)
}

/// Parse a `u16` as `str::parse::<u16>` does.
pub fn parse_u16(s: &str) -> (r: Option<u16>)
    ensures
        match parse_unsigned(s@, u16::MAX as nat) {
            Some(v) => r == Some(v as u16),
            None => r is None,
        },
{
    match parse_uint(&chars_of(s), 0xffff) {
        Some(v) => Some(v as u16),
        None => None,
    }
}

/// Parse a `u32` as `str::parse::<u32>` does.
pub fn parse_u32(s: &str) -> (r: Option<u32>)
    ensures
        match parse_unsigned(s@, u32::MAX as nat) {
            Some(v) => r == Some(v as u32),
            None => r is None,
        },
{
    match parse_uint(&chars_of(s), 0xffff_ffff) {
        Some(v) => Some(v as u32),
        None => None,
    }
}

/// Parse a `u64` as `str::parse::<u64>` does.
pub fn parse_u64(s: &str) -> (r: Option<u64>)
    ensures
        match parse_unsigned(s@, u64::MAX as nat) {
            Some(v) => r == Some(v as u64),
            None => r is None,
        },
{
    parse_uint(&chars_of(s), 0xffff_ffff_ffff_ffff)
}

/// The ASCII digit of a value below ten.
pub open spec fn digit_char(d: nat) -> char {
    ('0' as nat + d) as char
}

/// The decimal digits of `n`, without leading zeros.
pub open spec fn decimal(n: nat) -> Seq<char>
    decreases n,
{
    if n < 10 {
        seq![digit_char(n)]
    } else {
        decimal(n / 10).push(digit_char(n % 10))
    }
}

/// The ASCII digit of a value below ten.
fn digit_of(d: u64) -> (c: char)
    requires
        d < 10,
    ensures
        c == digit_char(d as nat),
{
    match d {
        0 => '0',
        1 => '1',
        2 => '2',
        3 => '3',
        4 => '4',
        5 => '5',
        6 => '6',
        7 => '7',
        8 => '8',
        _ => '9',
    }
}

/// Append the decimal digits of `n` (`Display` for an unsigned integer).
pub fn push_decimal(s: &mut String, n: u64)
    ensures
        final(s)@ == old(s)@ + decimal(n as nat),
    decreases n,
{
    if n >= 10 {
        push_decimal(s, n / 10);
    }
    let ghost mid = s@;
    push_char(s, digit_of(n % 10));
    proof {
        if n >= 10 {
            assert(s@ =~= old(s)@ + decimal(n as nat));
        } else {
            assert(s@ =~= old(s)@ + decimal(n as nat));
        }
    }
}

/// `str::replace` for a non-empty pattern: each occurrence of `p`, taken
/// from the left without overlap, replaced by `w`.
pub open spec fn replace_seq(s: Seq<char>, p: Seq<char>, w: Seq<char>) -> Seq<char>
    decreases s.len(),
{
    if s.len() == 0 {
        Seq::empty()
    } else if p.len() > 0 && has_prefix(s, p) {
        w + replace_seq(s.subrange(p.len() as int, s.len() as int), p, w)
    } else {
        seq![s[0]] + replace_seq(s.drop_first(), p, w)
    }
}

/// `str::replace` with a non-empty pattern.
pub fn replace_all(s: &str, p: &str, w: &str) -> (r: String)
    requires
        p@.len() > 0,
    ensures
        r@ == replace_seq(s@, p@, w@),
{
    let v = chars_of(s);
    let pv = chars_of(p);
    let mut out = String::new();
    let mut i: usize = 0;
    assert(v@.subrange(0, v@.len() as int) =~= v@);
    while i < v.len()
        invariant
            i <= v@.len(),
            v@ == s@,
            pv@ == p@,
            p@.len() > 0,
            out@ + replace_seq(v@.subrange(i as int, v@.len() as int), p@, w@) == replace_seq(s@, p@, w@),
        decreases v@.len() - i,
    {
        let ghost rest = v@.subrange(i as int, v@.len() as int);
        let m = matches_at(&v, &pv, i);
        proof {
            if m {
                assert(rest.subrange(0, p@.len() as int) =~= v@.subrange(i as int, i + p@.len()));
            } else if p@.len() <= rest.len() {
                assert(rest.subrange(0, p@.len() as int) =~= v@.subrange(i as int, i + p@.len()));
            }
        }
        if m {
            let ghost before = out@;
            push_str(&mut out, w);
            assert(rest.subrange(p@.len() as int, rest.len() as int) =~= v@.subrange(i + p@.len(), v@.len() as int));
            assert(out@ + replace_seq(v@.subrange(i + p@.len(), v@.len() as int), p@, w@) =~= before + (w@ + replace_seq(v@.subrange(i + p@.len(), v@.len() as int), p@, w@)));
            i = i + pv.len();
        } else {
            let ghost before = out@;
            push_char(&mut out, v[i]);
            assert(rest.drop_first() =~= v@.subrange(i + 1, v@.len() as int));
            assert(rest[0] == v@[i as int]);
            assert(out@ + replace_seq(v@.subrange(i + 1, v@.len() as int), p@, w@) =~= before + (seq![v@[i as int]] + replace_seq(v@.subrange(i + 1, v@.len() as int), p@, w@)));
            i = i + 1;
        }
    }
    assert(v@.subrange(i as int, v@.len() as int) =~= Seq::<char>::empty());
    assert(out@ + Seq::<char>::empty() =~= out@);
    out
}

} // verus!
