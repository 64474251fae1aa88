//! How `std::path::Path` compares paths on Windows, on the path model of
//! `path`: two paths are equal when their components are, and ordered by
//! their components, compared one by one. A component compares first by its
//! kind (drive prefix, root, `.`, `..`, name, in that order), then a drive
//! prefix by its letter in upper case and a name by its characters.
use vstd::prelude::*;
use crate::path::{
    after_drive, after_drive_chars, drive_present, has_cur_dir, has_drive, has_root, normal_parts,
    normal_parts_chars,
};
use crate::text::{chars_of, views};
use crate::package_manager::texts;

verus! {

/// A drive letter as `Path` compares it: in upper case.
pub open spec fn fold_drive(c: char) -> int {
    if 'a' <= c && c <= 'z' {
        c as int - 32
    } else {
        c as int
    }
}

/// The characters of a name as numbers.
pub open spec fn codes(p: Seq<char>) -> Seq<int> {
    p.map_values(|c: char| c as int)
}

/// The key of a named component: `..` is a parent-directory component, any
/// other name a normal one.
pub open spec fn part_key(p: Seq<char>) -> Seq<int> {
    if p == seq!['.', '.'] {
        seq![3]
    } else {
        seq![4] + codes(p)
    }
}

/// The components of a path as comparison keys: the kind's rank first, then
/// what the component holds.
#[verifier::opaque]
pub open spec fn path_key(s: Seq<char>) -> Seq<Seq<int>> {
    (if has_drive(s) { seq![seq![0, fold_drive(s[0])]] } else { Seq::empty() }) + (if has_root(s) {
        seq![seq![1]]
    } else {
        Seq::empty()
    }) + (if has_cur_dir(s) { seq![seq![2]] } else { Seq::empty() }) + normal_parts(s).map_values(
        |p: Seq<char>| part_key(p),
    )
}

/// `==` on paths: the same components.
pub open spec fn same_path(a: Seq<char>, b: Seq<char>) -> bool {
    path_key(a) == path_key(b)
}

/// Lexicographic order on number sequences; a proper prefix comes first.
pub open spec fn ints_lt(a: Seq<int>, b: Seq<int>) -> bool
    decreases a.len(),
{
    if b.len() == 0 {
        false
    } else if a.len() == 0 {
        true
    } else if a[0] != b[0] {
        a[0] < b[0]
    } else {
        ints_lt(a.drop_first(), b.drop_first())
    }
}

/// Lexicographic order on key sequences; a proper prefix comes first.
pub open spec fn keys_lt(a: Seq<Seq<int>>, b: Seq<Seq<int>>) -> bool
    decreases a.len(),
{
    if b.len() == 0 {
        false
    } else if a.len() == 0 {
        true
    } else if a[0] != b[0] {
        ints_lt(a[0], b[0])
    } else {
        keys_lt(a.drop_first(), b.drop_first())
    }
}

/// `<` on paths.
pub open spec fn path_lt(a: Seq<char>, b: Seq<char>) -> bool {
    keys_lt(path_key(a), path_key(b))
}

/// No sequence is before itself.
pub proof fn lemma_ints_irreflexive(a: Seq<int>)
    ensures
        !ints_lt(a, a),
    decreases a.len(),
{
    if a.len() > 0 {
        lemma_ints_irreflexive(a.drop_first());
    }
}

/// The order on number sequences is transitive.
pub proof fn lemma_ints_transitive(a: Seq<int>, b: Seq<int>, c: Seq<int>)
    requires
        ints_lt(a, b),
        ints_lt(b, c),
    ensures
        ints_lt(a, c),
    decreases a.len(),
{
    if a.len() > 0 && b.len() > 0 && c.len() > 0 && a[0] == b[0] && b[0] == c[0] {
        lemma_ints_transitive(a.drop_first(), b.drop_first(), c.drop_first());
    }
}

/// Two different number sequences are ordered one way or the other.
pub proof fn lemma_ints_total(a: Seq<int>, b: Seq<int>)
    requires
        a != b,
    ensures
        ints_lt(a, b) || ints_lt(b, a),
    decreases a.len(),
{
    if a.len() > 0 && b.len() > 0 && a[0] == b[0] {
        if a.drop_first() == b.drop_first() {
            assert(a =~= seq![a[0]] + a.drop_first());
            assert(b =~= seq![b[0]] + b.drop_first());
        }
        lemma_ints_total(a.drop_first(), b.drop_first());
    } else if a.len() == 0 && b.len() == 0 {
        assert(a =~= b);
    }
}

/// No key sequence is before itself.
pub proof fn lemma_keys_irreflexive(a: Seq<Seq<int>>)
    ensures
        !keys_lt(a, a),
    decreases a.len(),
{
    if a.len() > 0 {
        lemma_keys_irreflexive(a.drop_first());
    }
}

/// The order on key sequences is transitive.
pub proof fn lemma_keys_transitive(a: Seq<Seq<int>>, b: Seq<Seq<int>>, c: Seq<Seq<int>>)
    requires
        keys_lt(a, b),
        keys_lt(b, c),
    ensures
        keys_lt(a, c),
    decreases a.len(),
{
    if a.len() > 0 && b.len() > 0 && c.len() > 0 {
        if a[0] == b[0] && b[0] == c[0] {
            lemma_keys_transitive(a.drop_first(), b.drop_first(), c.drop_first());
        } else if a[0] != b[0] && b[0] != c[0] {
            lemma_ints_transitive(a[0], b[0], c[0]);
            if a[0] == c[0] {
                lemma_ints_irreflexive(a[0]);
            }
        } else if a[0] == b[0] {
        } else {
        }
    }
}

/// Two different key sequences are ordered one way or the other.
pub proof fn lemma_keys_total(a: Seq<Seq<int>>, b: Seq<Seq<int>>)
    requires
        a != b,
    ensures
        keys_lt(a, b) || keys_lt(b, a),
    decreases a.len(),
{
    if a.len() > 0 && b.len() > 0 {
        if a[0] == b[0] {
            if a.drop_first() == b.drop_first() {
                assert(a =~= seq![a[0]] + a.drop_first());
                assert(b =~= seq![b[0]] + b.drop_first());
            }
            lemma_keys_total(a.drop_first(), b.drop_first());
        } else {
            lemma_ints_total(a[0], b[0]);
        }
    } else if a.len() == 0 && b.len() == 0 {
        assert(a =~= b);
    }
}

/// `<` on paths is a strict order, and any two paths that are not equal are
/// ordered one way or the other.
pub proof fn lemma_path_order(a: Seq<char>, b: Seq<char>, c: Seq<char>)
    ensures
        !path_lt(a, a),
        path_lt(a, b) && path_lt(b, c) ==> path_lt(a, c),
        !same_path(a, b) ==> path_lt(a, b) || path_lt(b, a),
        same_path(a, b) ==> !path_lt(a, b) && !path_lt(b, a),
{
    lemma_keys_irreflexive(path_key(a));
    if path_lt(a, b) && path_lt(b, c) {
        lemma_keys_transitive(path_key(a), path_key(b), path_key(c));
    }
    if !same_path(a, b) {
        lemma_keys_total(path_key(a), path_key(b));
    }
}

/// One component's key as held in memory: its kind's rank and its
/// characters.
pub open spec fn comp_view(k: (u8, Vec<char>)) -> Seq<int> {
    seq![k.0 as int] + codes(k.1@)
}

/// Component keys as numbers.
pub open spec fn keys_view(v: Seq<(u8, Vec<char>)>) -> Seq<Seq<int>> {
    v.map_values(|k: (u8, Vec<char>)| comp_view(k))
}

/// A drive letter in upper case.
fn drive_upper(c: char) -> (r: char)
    requires
        ('a' <= c && c <= 'z') || ('A' <= c && c <= 'Z'),
    ensures
        r as int == fold_drive(c),
{
    if 'a' <= c && c <= 'z' {
        let b = c as u8;
        (b - 32) as char
    } else {
        c
    }
}

/// A copy of a character vector.
fn copy_chars(p: &Vec<char>) -> (r: Vec<char>)
    ensures
        r@ == p@,
{
    let mut r: Vec<char> = Vec::new();
    let mut i: usize = 0;
    while i < p.len()
        invariant
            i <= p@.len(),
            r@ == p@.take(i as int),
        decreases p@.len() - i,
    {
        r.push(p[i]);
        assert(p@.take(i + 1) =~= p@.take(i as int).push(p@[i as int]));
        i += 1;
    }
    assert(p@.take(p@.len() as int) =~= p@);
    r
}

/// The key of a named component.
fn part_key_vec(p: &Vec<char>) -> (r: (u8, Vec<char>))
    ensures
        comp_view(r) == part_key(p@),
{
    if p.len() == 2 && p[0] == '.' && p[1] == '.' {
        assert(p@ =~= seq!['.', '.']);
        let r: (u8, Vec<char>) = (3, Vec::new());
        assert(comp_view(r) =~= seq![3int]);
        return r;
    }
    let r: (u8, Vec<char>) = (4, copy_chars(p));
    proof {
        if p@ == seq!['.', '.'] {
            assert(p@.len() == 2 && p@[0] == '.' && p@[1] == '.');
        }
    }
    r
}

/// The comparison keys of a path's components.
fn path_key_vec(s: &Vec<char>) -> (r: Vec<(u8, Vec<char>)>)
    ensures
        keys_view(r@) == path_key(s@),
{
    reveal(path_key);
    let mut out: Vec<(u8, Vec<char>)> = Vec::new();
    if drive_present(s) {
        let mut t: Vec<char> = Vec::new();
        t.push(drive_upper(s[0]));
        let k: (u8, Vec<char>) = (0, t);
        assert(comp_view(k) =~= seq![0int, fold_drive(s@[0])]);
        out.push(k);
    }
    let rest = after_drive_chars(s);
    let root = rest.len() > 0 && (rest[0] == '\\' || rest[0] == '/');
    if root {
        let k: (u8, Vec<char>) = (1, Vec::new());
        assert(comp_view(k) =~= seq![1int]);
        out.push(k);
    }
    let cur = !root && rest.len() > 0 && rest[0] == '.' && (rest.len() == 1 || rest[1] == '\\' || rest[1] == '/');
    if cur {
        let k: (u8, Vec<char>) = (2, Vec::new());
        assert(comp_view(k) =~= seq![2int]);
        out.push(k);
    }
    let ghost head = keys_view(out@);
    proof {
        let pre = if has_drive(s@) { seq![seq![0int, fold_drive(s@[0])]] } else { Seq::<Seq<int>>::empty() };
        let rt = if has_root(s@) { seq![seq![1int]] } else { Seq::<Seq<int>>::empty() };
        let cd = if has_cur_dir(s@) { seq![seq![2int]] } else { Seq::<Seq<int>>::empty() };
        assert(head =~= pre + rt + cd);
    }
    let parts = normal_parts_chars(s);
    let ghost np = normal_parts(s@).map_values(|p: Seq<char>| part_key(p));
    let mut i: usize = 0;
    while i < parts.len()
        invariant
            i <= parts@.len(),
            views(parts@) == normal_parts(s@),
            np == normal_parts(s@).map_values(|p: Seq<char>| part_key(p)),
            keys_view(out@) == head + np.take(i as int),
        decreases parts@.len() - i,
    {
        let ghost before = out@;
        let k = part_key_vec(&parts[i]);
        out.push(k);
        assert(np[i as int] == part_key(parts@[i as int]@));
        assert(np.take(i + 1) =~= np.take(i as int).push(np[i as int]));
        assert(keys_view(out@) =~= keys_view(before).push(comp_view(k)));
        i += 1;
    }
    assert(np.take(np.len() as int) =~= np);
    out
}

/// Whether two character vectors are equal.
fn chars_same(a: &Vec<char>, b: &Vec<char>) -> (r: bool)
    ensures
        r == (a@ == b@),
{
    if a.len() != b.len() {
        return false;
    }
    let mut i: usize = 0;
    while i < a.len()
        invariant
            i <= a@.len(),
            a@.len() == b@.len(),
            forall|j: int| 0 <= j < i ==> a@[j] == b@[j],
        decreases a@.len() - i,
    {
        if a[i] != b[i] {
            return false;
        }
        i += 1;
    }
    assert(a@ =~= b@);
    true
}

/// Whether one character vector comes before another, by code points.
fn chars_less(a: &Vec<char>, b: &Vec<char>) -> (r: bool)
    ensures
        r == ints_lt(codes(a@), codes(b@)),
{
    let ghost va = codes(a@);
    let ghost vb = codes(b@);
    let mut i: usize = 0;
    assert(va.skip(0) =~= va);
    assert(vb.skip(0) =~= vb);
    while i < a.len() && i < b.len()
        invariant
            i <= a@.len(),
            i <= b@.len(),
            va == codes(a@),
            vb == codes(b@),
            ints_lt(va, vb) == ints_lt(va.skip(i as int), vb.skip(i as int)),
        decreases a@.len() - i,
    {
        assert(va.skip(i as int)[0] == a@[i as int] as int);
        assert(vb.skip(i as int)[0] == b@[i as int] as int);
        if a[i] != b[i] {
            return a[i] < b[i];
        }
        assert(va.skip(i as int).drop_first() =~= va.skip(i + 1));
        assert(vb.skip(i as int).drop_first() =~= vb.skip(i + 1));
        i += 1;
    }
    i == a.len() && i < b.len()
}

/// Whether two component keys are equal.
fn comp_same(a: &(u8, Vec<char>), b: &(u8, Vec<char>)) -> (r: bool)
    ensures
        r == (comp_view(*a) == comp_view(*b)),
{
    let same_text = chars_same(&a.1, &b.1);
    proof {
        if comp_view(*a) == comp_view(*b) {
            assert(comp_view(*a)[0] == a.0 as int);
            assert(comp_view(*b)[0] == b.0 as int);
            assert(codes(a.1@) =~= comp_view(*a).drop_first());
            assert(codes(b.1@) =~= comp_view(*b).drop_first());
            assert(a.1@.len() == b.1@.len());
            assert forall|j: int| 0 <= j < a.1@.len() implies a.1@[j] == b.1@[j] by {
                assert(codes(a.1@)[j] == codes(b.1@)[j]);
            }
            assert(a.1@ =~= b.1@);
        }
    }
    a.0 == b.0 && same_text
}

/// Whether one component key comes before another.
fn comp_less(a: &(u8, Vec<char>), b: &(u8, Vec<char>)) -> (r: bool)
    ensures
        r == ints_lt(comp_view(*a), comp_view(*b)),
{
    assert(comp_view(*a)[0] == a.0 as int);
    assert(comp_view(*b)[0] == b.0 as int);
    assert(comp_view(*a).drop_first() =~= codes(a.1@));
    assert(comp_view(*b).drop_first() =~= codes(b.1@));
    if a.0 != b.0 {
        a.0 < b.0
    } else {
        chars_less(&a.1, &b.1)
    }
}

/// Whether two key sequences are equal.
fn keys_same(a: &Vec<(u8, Vec<char>)>, b: &Vec<(u8, Vec<char>)>) -> (r: bool)
    ensures
        r == (keys_view(a@) == keys_view(b@)),
{
    if a.len() != b.len() {
        assert(keys_view(a@).len() != keys_view(b@).len());
        return false;
    }
    let mut i: usize = 0;
    while i < a.len()
        invariant
            i <= a@.len(),
            a@.len() == b@.len(),
            forall|j: int| 0 <= j < i ==> keys_view(a@)[j] == keys_view(b@)[j],
        decreases a@.len() - i,
    {
        if !comp_same(&a[i], &b[i]) {
            assert(keys_view(a@)[i as int] != keys_view(b@)[i as int]);
            return false;
        }
        i += 1;
    }
    assert(keys_view(a@) =~= keys_view(b@));
    true
}

/// Whether one key sequence comes before another.
fn keys_less(a: &Vec<(u8, Vec<char>)>, b: &Vec<(u8, Vec<char>)>) -> (r: bool)
    ensures
        r == keys_lt(keys_view(a@), keys_view(b@)),
{
    let ghost va = keys_view(a@);
    let ghost vb = keys_view(b@);
    let mut i: usize = 0;
    assert(va.skip(0) =~= va);
    assert(vb.skip(0) =~= vb);
    while i < a.len() && i < b.len()
        invariant
            i <= a@.len(),
            i <= b@.len(),
            va == keys_view(a@),
            vb == keys_view(b@),
            keys_lt(va, vb) == keys_lt(va.skip(i as int), vb.skip(i as int)),
        decreases a@.len() - i,
    {
        assert(va.skip(i as int)[0] == comp_view(a@[i as int]));
        assert(vb.skip(i as int)[0] == comp_view(b@[i as int]));
        if !comp_same(&a[i], &b[i]) {
            return comp_less(&a[i], &b[i]);
        }
        assert(va.skip(i as int).drop_first() =~= va.skip(i + 1));
        assert(vb.skip(i as int).drop_first() =~= vb.skip(i + 1));
        i += 1;
    }
    i == a.len() && i < b.len()
}

/// `==` on two paths given as text.
pub fn paths_equal(a: &str, b: &str) -> (r: bool)
    ensures
        r == same_path(a@, b@),
{
    let ka = path_key_vec(&chars_of(a));
    let kb = path_key_vec(&chars_of(b));
    keys_same(&ka, &kb)
}

/// `<` on two paths given as text.
pub fn path_less(a: &str, b: &str) -> (r: bool)
    ensures
        r == path_lt(a@, b@),
{
    let ka = path_key_vec(&chars_of(a));
    let kb = path_key_vec(&chars_of(b));
    keys_less(&ka, &kb)
}

/// `Path::starts_with`: the components of `base` begin the components of
/// `path`.
pub open spec fn path_starts_with(path: Seq<char>, base: Seq<char>) -> bool {
    path_key(base).is_prefix_of(path_key(path))
}

/// `Path::ends_with`: the components of `child` end the components of
/// `path`.
pub open spec fn path_ends_with(path: Seq<char>, child: Seq<char>) -> bool {
    let p = path_key(path);
    let c = path_key(child);
    c.len() <= p.len() && p.subrange(p.len() - c.len(), p.len() as int) == c
}

/// Whether the keys of `a` equal those of `b` from `off` on.
fn keys_match_at(a: &Vec<(u8, Vec<char>)>, b: &Vec<(u8, Vec<char>)>, off: usize) -> (r: bool)
    requires
        off + a@.len() <= b@.len(),
    ensures
        r == (keys_view(b@).subrange(off as int, off + a@.len()) == keys_view(a@)),
{
    let ghost va = keys_view(a@);
    let ghost vb = keys_view(b@);
    let nb = b.len();
    let mut i: usize = 0;
    while i < a.len()
        invariant
            i <= a@.len(),
            nb == b@.len(),
            off + a@.len() <= b@.len(),
            va == keys_view(a@),
            vb == keys_view(b@),
            forall|j: int| 0 <= j < i ==> vb[off + j] == va[j],
        decreases a@.len() - i,
    {
        let bi: usize = off + i;
        if !comp_same(&a[i], &b[bi]) {
            proof {
                assert(va[i as int] == comp_view(a@[i as int]));
                assert(vb[off + i] == comp_view(b@[off + i]));
                if vb.subrange(off as int, off + a@.len()) == va {
                    assert(vb.subrange(off as int, off + a@.len())[i as int] == vb[off + i]);
                }
            }
            return false;
        }
        i += 1;
    }
    assert(vb.subrange(off as int, off + a@.len()) =~= va);
    true
}

/// `Path::starts_with` on path text.
pub fn starts_with_path(path: &str, base: &str) -> (r: bool)
    ensures
        r == path_starts_with(path@, base@),
{
    let p = path_key_vec(&chars_of(path));
    let b = path_key_vec(&chars_of(base));
    if b.len() > p.len() {
        return false;
    }
    keys_match_at(&b, &p, 0)
}

/// `Path::ends_with` on path text.
pub fn ends_with_path(path: &str, child: &str) -> (r: bool)
    ensures
        r == path_ends_with(path@, child@),
{
    let p = path_key_vec(&chars_of(path));
    let c = path_key_vec(&chars_of(child));
    if c.len() > p.len() {
        return false;
    }
    keys_match_at(&c, &p, p.len() - c.len())
}

/// Some entry of the list is the same path as `p`.
pub open spec fn contains_path(list: Seq<Seq<char>>, p: Seq<char>) -> bool {
    exists|i: int| 0 <= i < list.len() && same_path(#[trigger] list[i], p)
}

/// Whether some entry of the list is the same path as `p`.
pub fn list_contains_path(list: &Vec<String>, p: &str) -> (r: bool)
    ensures
        r == contains_path(texts(list@), p@),
{
    let mut i: usize = 0;
    while i < list.len()
        invariant
            i <= list@.len(),
            forall|k: int| 0 <= k < i ==> !same_path(#[trigger] texts(list@)[k], p@),
        decreases list@.len() - i,
    {
        if paths_equal(list[i].as_str(), p) {
            assert(same_path(texts(list@)[i as int], p@));
            return true;
        }
        i += 1;
    }
    false
}

/// Among the paths, the `k`th is the first of those equal to it.
pub open spec fn first_of_class(ps: Seq<Seq<char>>, k: int) -> bool {
    0 <= k < ps.len() && forall|j: int| 0 <= j < k ==> !same_path(#[trigger] ps[j], ps[k])
}

/// The `i`th of `r` is the first of its group among `ps`.
pub open spec fn is_rep(r: Seq<Seq<char>>, ps: Seq<Seq<char>>, i: int) -> bool {
    exists|k: int| #[trigger] first_of_class(ps, k) && r[i] == ps[k]
}

/// Some entry of `r` equals the `k`th of `ps`.
pub open spec fn covered(r: Seq<Seq<char>>, ps: Seq<Seq<char>>, k: int) -> bool {
    exists|i: int| 0 <= i < r.len() && same_path(#[trigger] r[i], ps[k])
}

/// `r` is increasing.
pub open spec fn increasing(r: Seq<Seq<char>>) -> bool {
    forall|i: int, j: int| 0 <= i < j < r.len() ==> path_lt(#[trigger] r[i], #[trigger] r[j])
}

/// `r` holds, in increasing order, the first of each group of equal paths
/// of `ps`: what a stable sort followed by removing repeats leaves of `ps`.
pub open spec fn sorted_unique_of(r: Seq<Seq<char>>, ps: Seq<Seq<char>>) -> bool {
    &&& increasing(r)
    &&& forall|i: int| 0 <= i < r.len() ==> #[trigger] is_rep(r, ps, i)
    &&& forall|k: int| 0 <= k < ps.len() ==> #[trigger] covered(r, ps, k)
}

/// Where a path equal to `p` is in the list, if anywhere.
fn position_of_same(list: &Vec<String>, p: &str) -> (r: Option<usize>)
    ensures
        match r {
            Some(i) => i < list@.len() && same_path(list@[i as int]@, p@),
            None => forall|i: int| 0 <= i < list@.len() ==> !same_path(#[trigger] list@[i]@, p@),
        },
{
    let mut i: usize = 0;
    while i < list.len()
        invariant
            i <= list@.len(),
            forall|j: int| 0 <= j < i ==> !same_path(#[trigger] list@[j]@, p@),
        decreases list@.len() - i,
    {
        if paths_equal(list[i].as_str(), p) {
            return Some(i);
        }
        i += 1;
    }
    None
}

/// The first place in the list whose path comes after `p`.
fn insert_position(list: &Vec<String>, p: &str) -> (r: usize)
    ensures
        r <= list@.len(),
        forall|i: int| 0 <= i < r ==> !path_lt(p@, #[trigger] list@[i]@),
        r < list@.len() ==> path_lt(p@, list@[r as int]@),
{
    let mut i: usize = 0;
    while i < list.len()
        invariant
            i <= list@.len(),
            forall|j: int| 0 <= j < i ==> !path_lt(p@, #[trigger] list@[j]@),
        decreases list@.len() - i,
    {
        if path_less(p, list[i].as_str()) {
            return i;
        }
        i += 1;
    }
    i
}

/// A first of its group among the first `n` paths is one among the first
/// `n + 1`.
proof fn lemma_first_of_class_extend(ps: Seq<Seq<char>>, n: int, k: int)
    requires
        0 <= n < ps.len(),
        first_of_class(ps.take(n), k),
    ensures
        first_of_class(ps.take(n + 1), k),
        ps.take(n + 1)[k] == ps.take(n)[k],
{
    assert forall|j: int| 0 <= j < k implies !same_path(#[trigger] ps.take(n + 1)[j], ps.take(n + 1)[k]) by {
        assert(ps.take(n + 1)[j] == ps.take(n)[j]);
        assert(!same_path(ps.take(n)[j], ps.take(n)[k]));
    }
}

/// Keeping the list when the next path equals one already in it.
proof fn lemma_keep(o: Seq<Seq<char>>, ps: Seq<Seq<char>>, n: int, i: int)
    requires
        0 <= n < ps.len(),
        sorted_unique_of(o, ps.take(n)),
        0 <= i < o.len(),
        same_path(o[i], ps[n]),
    ensures
        sorted_unique_of(o, ps.take(n + 1)),
{
    let pn = ps.take(n);
    let pn1 = ps.take(n + 1);
    assert forall|a: int| 0 <= a < o.len() implies #[trigger] is_rep(o, pn1, a) by {
        assert(is_rep(o, pn, a));
        let k = choose|k: int| #[trigger] first_of_class(pn, k) && o[a] == pn[k];
        lemma_first_of_class_extend(ps, n, k);
        assert(first_of_class(pn1, k) && o[a] == pn1[k]);
    }
    assert forall|k: int| 0 <= k < pn1.len() implies #[trigger] covered(o, pn1, k) by {
        if k < n {
            assert(covered(o, pn, k));
            let a = choose|a: int| 0 <= a < o.len() && same_path(#[trigger] o[a], pn[k]);
            assert(pn1[k] == pn[k]);
            assert(same_path(o[a], pn1[k]));
        } else {
            assert(pn1[k] == ps[n]);
            assert(same_path(o[i], pn1[k]));
        }
    }
}

/// Putting `p` at `j` keeps the list increasing when everything before `j`
/// comes before `p` and the entry at `j` after it.
proof fn lemma_insert_sorted(o: Seq<Seq<char>>, p: Seq<char>, j: int)
    requires
        increasing(o),
        0 <= j <= o.len(),
        forall|i: int| 0 <= i < o.len() ==> !same_path(#[trigger] o[i], p),
        forall|i: int| 0 <= i < j ==> !path_lt(p, #[trigger] o[i]),
        j < o.len() ==> path_lt(p, o[j]),
    ensures
        increasing(o.insert(j, p)),
{
    let o2 = o.insert(j, p);
    assert forall|a: int, b: int| 0 <= a < b < o2.len() implies path_lt(#[trigger] o2[a], #[trigger] o2[b]) by {
        if a < j && b < j {
            assert(o2[a] == o[a] && o2[b] == o[b]);
            assert(path_lt(o[a], o[b]));
        } else if a < j && b == j {
            assert(o2[a] == o[a] && o2[b] == p);
            assert(!path_lt(p, o[a]));
            assert(!same_path(o[a], p));
            lemma_path_order(o[a], p, p);
        } else if a < j && b > j {
            assert(o2[a] == o[a] && o2[b] == o[b - 1]);
            assert(path_lt(o[a], o[b - 1]));
        } else if a == j {
            assert(o2[a] == p && o2[b] == o[b - 1]);
            if b - 1 > j {
                assert(path_lt(o[j], o[b - 1]));
                lemma_path_order(p, o[j], o[b - 1]);
            }
        } else {
            assert(o2[a] == o[a - 1] && o2[b] == o[b - 1]);
            assert(path_lt(o[a - 1], o[b - 1]));
        }
    }
}

/// The next path, equal to none in the list, is the first of its group.
proof fn lemma_new_first(o: Seq<Seq<char>>, ps: Seq<Seq<char>>, n: int)
    requires
        0 <= n < ps.len(),
        sorted_unique_of(o, ps.take(n)),
        forall|i: int| 0 <= i < o.len() ==> !same_path(#[trigger] o[i], ps[n]),
    ensures
        first_of_class(ps.take(n + 1), n),
{
    let pn = ps.take(n);
    let pn1 = ps.take(n + 1);
    assert forall|m: int| 0 <= m < n implies !same_path(#[trigger] pn1[m], pn1[n]) by {
        assert(covered(o, pn, m));
        let c = choose|c: int| 0 <= c < o.len() && same_path(#[trigger] o[c], pn[m]);
        assert(pn1[m] == pn[m]);
        assert(pn1[n] == ps[n]);
        assert(!same_path(o[c], ps[n]));
    }
}

/// Putting the next path, equal to none in the list, at `j`.
proof fn lemma_insert(o: Seq<Seq<char>>, ps: Seq<Seq<char>>, n: int, j: int)
    requires
        0 <= n < ps.len(),
        sorted_unique_of(o, ps.take(n)),
        forall|i: int| 0 <= i < o.len() ==> !same_path(#[trigger] o[i], ps[n]),
        0 <= j <= o.len(),
        forall|i: int| 0 <= i < j ==> !path_lt(ps[n], #[trigger] o[i]),
        j < o.len() ==> path_lt(ps[n], o[j]),
    ensures
        sorted_unique_of(o.insert(j, ps[n]), ps.take(n + 1)),
{
    let p = ps[n];
    let pn = ps.take(n);
    let pn1 = ps.take(n + 1);
    let o2 = o.insert(j, p);
    lemma_insert_sorted(o, p, j);
    lemma_new_first(o, ps, n);
    assert forall|a: int| 0 <= a < o2.len() implies #[trigger] is_rep(o2, pn1, a) by {
        if a == j {
            assert(o2[a] == p);
            assert(pn1[n] == p);
            assert(first_of_class(pn1, n) && o2[a] == pn1[n]);
        } else {
            let src = if a < j { a } else { a - 1 };
            assert(o2[a] == o[src]);
            assert(is_rep(o, pn, src));
            let k = choose|k: int| #[trigger] first_of_class(pn, k) && o[src] == pn[k];
            lemma_first_of_class_extend(ps, n, k);
            assert(first_of_class(pn1, k) && o2[a] == pn1[k]);
        }
    }
    assert forall|k: int| 0 <= k < pn1.len() implies #[trigger] covered(o2, pn1, k) by {
        if k < n {
            assert(covered(o, pn, k));
            let c = choose|c: int| 0 <= c < o.len() && same_path(#[trigger] o[c], pn[k]);
            assert(pn1[k] == pn[k]);
            if c < j {
                assert(o2[c] == o[c]);
                assert(same_path(o2[c], pn1[k]));
            } else {
                assert(o2[c + 1] == o[c]);
                assert(same_path(o2[c + 1], pn1[k]));
            }
        } else {
            assert(pn1[k] == p);
            assert(o2[j] == p);
            assert(same_path(o2[j], pn1[k]));
        }
    }
}

/// The paths sorted as `Path` orders them, each group of equal paths kept
/// once, by its first (`sort` then `dedup` on a `Vec<PathBuf>`).
pub fn sorted_unique_paths(paths: &[String]) -> (r: Vec<String>)
    ensures
        sorted_unique_of(texts(r@), texts(paths@)),
{
    let ghost ps = texts(paths@);
    let mut out: Vec<String> = Vec::new();
    let mut n: usize = 0;
    assert(sorted_unique_of(texts(out@), ps.take(0)));
    while n < paths.len()
        invariant
            n <= paths@.len(),
            ps == texts(paths@),
            sorted_unique_of(texts(out@), ps.take(n as int)),
        decreases paths@.len() - n,
    {
        let ghost o = texts(out@);
        assert(ps[n as int] == paths@[n as int]@);
        match position_of_same(&out, paths[n].as_str()) {
            Some(i) => {
                proof {
                    assert(o[i as int] == out@[i as int]@);
                    lemma_keep(o, ps, n as int, i as int);
                }
            },
            None => {
                let j = insert_position(&out, paths[n].as_str());
                proof {
                    assert forall|i: int| 0 <= i < o.len() implies !same_path(#[trigger] o[i], ps[n as int]) by {
                        assert(o[i] == out@[i]@);
                    }
                    assert forall|i: int| 0 <= i < j implies !path_lt(ps[n as int], #[trigger] o[i]) by {
                        assert(o[i] == out@[i]@);
                    }
                    if j < o.len() {
                        assert(o[j as int] == out@[j as int]@);
                    }
                    lemma_insert(o, ps, n as int, j as int);
                }
                out.insert(j, paths[n].clone());
                assert(texts(out@) =~= o.insert(j as int, ps[n as int]));
            },
        }
        n += 1;
    }
    assert(ps.take(ps.len() as int) =~= ps);
    out
}

/// Each entry of one result is an entry of the other.
proof fn lemma_entry_in_other(r1: Seq<Seq<char>>, r2: Seq<Seq<char>>, ps: Seq<Seq<char>>, i: int) -> (j: int)
    requires
        sorted_unique_of(r1, ps),
        sorted_unique_of(r2, ps),
        0 <= i < r1.len(),
    ensures
        0 <= j < r2.len(),
        r2[j] == r1[i],
{
    assert(is_rep(r1, ps, i));
    let k = choose|k: int| #[trigger] first_of_class(ps, k) && r1[i] == ps[k];
    assert(covered(r2, ps, k));
    let j = choose|j: int| 0 <= j < r2.len() && same_path(#[trigger] r2[j], ps[k]);
    assert(is_rep(r2, ps, j));
    let k2 = choose|k2: int| #[trigger] first_of_class(ps, k2) && r2[j] == ps[k2];
    if k2 < k {
        assert(!same_path(ps[k2], ps[k]));
    } else if k < k2 {
        assert(!same_path(ps[k], ps[k2]));
    }
    j
}

/// The results agree on their first `n` entries.
proof fn lemma_prefix_equal(r1: Seq<Seq<char>>, r2: Seq<Seq<char>>, ps: Seq<Seq<char>>, n: int)
    requires
        sorted_unique_of(r1, ps),
        sorted_unique_of(r2, ps),
        0 <= n <= r1.len(),
        n <= r2.len(),
    ensures
        forall|i: int| 0 <= i < n ==> r1[i] == r2[i],
    decreases n,
{
    if n > 0 {
        lemma_prefix_equal(r1, r2, ps, n - 1);
        let i = n - 1;
        let j = lemma_entry_in_other(r1, r2, ps, i);
        let i2 = lemma_entry_in_other(r2, r1, ps, i);
        lemma_path_order(r1[i], r1[i], r1[i]);
        lemma_path_order(r2[i], r2[i], r2[i]);
        if j < i {
            assert(r1[j] == r2[j]);
            assert(path_lt(r1[j], r1[i]));
            assert(false);
        } else if j > i {
            if i2 < i {
                assert(r1[i2] == r2[i2]);
                assert(path_lt(r2[i2], r2[i]));
                assert(false);
            } else if i2 == i {
                assert(path_lt(r2[i], r2[j]));
                assert(false);
            } else {
                assert(path_lt(r1[i], r1[i2]));
                assert(path_lt(r2[i], r2[j]));
                lemma_path_order(r1[i], r2[i], r2[j]);
                assert(false);
            }
        }
        assert(r1[i] == r2[i]);
        assert forall|k: int| 0 <= k < n implies r1[k] == r2[k] by {
            if k < i {
            }
        }
    }
}

/// What a sort followed by removing repeats leaves is determined: two lists
/// that both hold, in increasing order, the first of each group of equal
/// paths of `ps` are the same list.
pub proof fn law_sorted_unique_exact(r1: Seq<Seq<char>>, r2: Seq<Seq<char>>, ps: Seq<Seq<char>>)
    requires
        sorted_unique_of(r1, ps),
        sorted_unique_of(r2, ps),
    ensures
        r1 == r2,
{
    if r1.len() > r2.len() {
        lemma_prefix_equal(r1, r2, ps, r2.len() as int);
        let i = r2.len() as int;
        let j = lemma_entry_in_other(r1, r2, ps, i);
        assert(r1[j] == r2[j]);
        assert(path_lt(r1[j], r1[i]));
        lemma_path_order(r1[i], r1[i], r1[i]);
    } else if r2.len() > r1.len() {
        lemma_prefix_equal(r1, r2, ps, r1.len() as int);
        let i = r1.len() as int;
        let j = lemma_entry_in_other(r2, r1, ps, i);
        assert(r1[j] == r2[j]);
        assert(path_lt(r2[j], r2[i]));
        lemma_path_order(r2[i], r2[i], r2[i]);
    } else {
        lemma_prefix_equal(r1, r2, ps, r1.len() as int);
        assert(r1 =~= r2);
    }
}

} // verus!
