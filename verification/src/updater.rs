//! Version comparison and the choice of an update from a release listing.
use vstd::prelude::*;
use crate::text::{
    chars_of, contains_seq, has_suffix, parse_uint, parse_unsigned, split_chars, split_on,
    str_contains, str_ends_with, string_of, views,
};

verus! {

/// Update status.
#[derive(Debug, Clone)]
pub enum UpdateStatus {
    UpToDate,
    UpdateAvailable { version: String, url: String },
    Downloaded { path: String },
    Applied,
    Error(String),
}

/// A downloadable file of a release.
#[derive(Debug, Clone)]
pub struct ReleaseAsset {
    pub name: String,
    pub browser_download_url: String,
}

/// The numeric parts of a version: the `.`-separated pieces that parse as
/// `u32`, in order; the others are skipped.
pub open spec fn numeric_parts(pieces: Seq<Seq<char>>) -> Seq<nat>
    decreases pieces.len(),
{
    if pieces.len() == 0 {
        Seq::empty()
    } else {
        let rest = numeric_parts(pieces.drop_last());
        match parse_unsigned(pieces.last(), u32::MAX as nat) {
            Some(v) => rest.push(v),
            None => rest,
        }
    }
}

/// The numeric parts of a version string.
pub open spec fn version_parts(s: Seq<char>) -> Seq<nat> {
    numeric_parts(split_on(s, '.'))
}

/// Part `i` of a version, zero when missing.
pub open spec fn part(v: Seq<nat>, i: int) -> nat {
    if 0 <= i < v.len() {
        v[i]
    } else {
        0
    }
}

/// Comparing two part lists from position `i` on: the first position where
/// they differ decides.
pub open spec fn greater_from(a: Seq<nat>, b: Seq<nat>, i: nat) -> bool
    decreases (if a.len() > b.len() { a.len() } else { b.len() }) - i,
{
    if i >= a.len() && i >= b.len() {
        false
    } else if part(a, i as int) != part(b, i as int) {
        part(a, i as int) > part(b, i as int)
    } else {
        greater_from(a, b, i + 1)
    }
}

/// Version `a` is newer than version `b`.
pub open spec fn version_greater(a: Seq<char>, b: Seq<char>) -> bool {
    greater_from(version_parts(a), version_parts(b), 0)
}

/// `s` without its leading `c` characters (`str::trim_start_matches`).
pub open spec fn trim_leading(s: Seq<char>, c: char) -> Seq<char>
    decreases s.len(),
{
    if s.len() > 0 && s[0] == c {
        trim_leading(s.drop_first(), c)
    } else {
        s
    }
}

/// An asset is a 64-bit installer or archive.
pub open spec fn is_update_asset(name: Seq<char>) -> bool {
    contains_seq(name, "x86_64"@) && (has_suffix(name, ".exe"@) || has_suffix(name, ".zip"@))
}

/// The numeric parts of a version string.
pub fn parse_version(s: &str) -> (v: Vec<u32>)
    ensures
        v@.map_values(|x: u32| x as nat) == version_parts(s@),
{
    let pieces = split_chars(&chars_of(s), '.');
    let mut out: Vec<u32> = Vec::new();
    let mut i: usize = 0;
    assert(views(pieces@).subrange(0, 0) =~= Seq::<Seq<char>>::empty());
    assert(out@.map_values(|x: u32| x as nat) =~= numeric_parts(views(pieces@).subrange(0, 0)));
    while i < pieces.len()
        invariant
            i <= pieces@.len(),
            out@.map_values(|x: u32| x as nat) == numeric_parts(views(pieces@).subrange(0, i as int)),
        decreases pieces@.len() - i,
    {
        let ghost old_out = out@;
        assert(views(pieces@).subrange(0, i + 1).drop_last() =~= views(pieces@).subrange(0, i as int));
        assert(views(pieces@).subrange(0, i + 1).last() == pieces@[i as int]@);
        match parse_uint(&pieces[i], 0xffff_ffff) {
            Some(n) => {
                out.push(n as u32);
                assert(out@.map_values(|x: u32| x as nat) =~= old_out.map_values(|x: u32| x as nat).push(n as nat));
            },
            None => {},
        }
        i += 1;
    }
    assert(views(pieces@).subrange(0, pieces@.len() as int) =~= views(pieces@));
    out
}

/// Whether version `a` is newer than version `b`: their numeric parts are
/// compared one by one, missing parts counting as zero.
pub fn version_gt(a: &str, b: &str) -> (r: bool)
    ensures
        r == version_greater(a@, b@),
{
    let av = parse_version(a);
    let bv = parse_version(b);
    let ghost pa = version_parts(a@);
    let ghost pb = version_parts(b@);
    let n = if av.len() > bv.len() { av.len() } else { bv.len() };
    let mut i: usize = 0;
    while i < n
        invariant
            i <= n,
            n == (if av@.len() > bv@.len() { av@.len() } else { bv@.len() }),
            av@.map_values(|x: u32| x as nat) == pa,
            bv@.map_values(|x: u32| x as nat) == pb,
            greater_from(pa, pb, 0) == greater_from(pa, pb, i as nat),
            pa == version_parts(a@),
            pb == version_parts(b@),
        decreases n - i,
    {
        let ai: u32 = if i < av.len() { av[i] } else { 0 };
        let bi: u32 = if i < bv.len() { bv[i] } else { 0 };
        proof {
            if i < av.len() {
                assert(av@.map_values(|x: u32| x as nat)[i as int] == av@[i as int] as nat);
            }
            if i < bv.len() {
                assert(bv@.map_values(|x: u32| x as nat)[i as int] == bv@[i as int] as nat);
            }
            assert(pa.len() == av@.len());
            assert(pb.len() == bv@.len());
        }
        assert(ai as nat == part(pa, i as int));
        assert(bi as nat == part(pb, i as int));
        if ai != bi {
            assert(!(i as nat >= pa.len() && i as nat >= pb.len()));
            assert(greater_from(pa, pb, i as nat) == (ai > bi));
            return ai > bi;
        }
        i += 1;
    }
    false
}

/// `s` without its leading `c` characters.
pub fn trim_start_char(s: &str, c: char) -> (r: String)
    ensures
        r@ == trim_leading(s@, c),
{
    let v = chars_of(s);
    let mut a: usize = 0;
    assert(v@.subrange(0, v@.len() as int) =~= v@);
    while a < v.len() && v[a] == c
        invariant
            a <= v@.len(),
            trim_leading(v@, c) == trim_leading(v@.subrange(a as int, v@.len() as int), c),
        decreases v@.len() - a,
    {
        assert(v@.subrange(a as int, v@.len() as int).drop_first() =~= v@.subrange(a + 1, v@.len() as int));
        a += 1;
    }
    assert(v@.subrange(0, v@.len() as int) =~= v@);
    string_of(&crate::text::copy_range(&v, a, v.len()))
}

/// The update to offer, from the tag of the latest release, the running
/// version and the release's assets: when the tag (without leading `v`s)
/// names a newer version, the first 64-bit `.exe` or `.zip` asset is
/// offered; otherwise, or when there is none, the program is up to date.
pub fn select_update(tag_name: &str, current: &str, assets: &Vec<ReleaseAsset>) -> (r: UpdateStatus)
    ensures
        ({
            let latest = trim_leading(tag_name@, 'v');
            if version_greater(latest, current@) && exists|i: int|
                0 <= i < assets@.len() && is_update_asset(assets@[i].name@) {
                r matches UpdateStatus::UpdateAvailable { version, url } && version@ == latest
                    && exists|i: int|
                    0 <= i < assets@.len() && is_update_asset(assets@[i].name@) && (forall|j: int|
                        0 <= j < i ==> !is_update_asset(#[trigger] assets@[j].name@))
                        && url@ == assets@[i].browser_download_url@
            } else {
                r is UpToDate
            }
        }),
{
    let latest = trim_start_char(tag_name, 'v');
    if !version_gt(&latest, current) {
        return UpdateStatus::UpToDate;
    }
    let mut i: usize = 0;
    while i < assets.len()
        invariant
            i <= assets@.len(),
            forall|j: int| 0 <= j < i ==> !is_update_asset(#[trigger] assets@[j].name@),
            latest@ == trim_leading(tag_name@, 'v'),
            version_greater(latest@, current@),
        decreases assets@.len() - i,
    {
        let name = assets[i].name.as_str();
        if str_contains(name, "x86_64") && (str_ends_with(name, ".exe") || str_ends_with(name, ".zip")) {
            assert(is_update_asset(assets@[i as int].name@));
            let url = crate::text::to_owned(assets[i].browser_download_url.as_str());
            assert(0 <= i < assets@.len() && is_update_asset(assets@[i as int].name@) && (forall|j: int|
                0 <= j < i ==> !is_update_asset(#[trigger] assets@[j].name@))
                && url@ == assets@[i as int].browser_download_url@);
            return UpdateStatus::UpdateAvailable { version: latest, url };
        }
        i += 1;
    }
    UpdateStatus::UpToDate
}

/// No version is newer than itself.
proof fn lemma_greater_from_irreflexive(a: Seq<nat>, i: nat)
    ensures
        !greater_from(a, a, i),
    decreases a.len() - i,
{
    if i < a.len() {
        lemma_greater_from_irreflexive(a, i + 1);
    }
}

/// Of two part lists, at most one is greater.
proof fn lemma_greater_from_asymmetric(a: Seq<nat>, b: Seq<nat>, i: nat)
    ensures
        !(greater_from(a, b, i) && greater_from(b, a, i)),
    decreases (if a.len() > b.len() { a.len() } else { b.len() }) - i,
{
    if !(i >= a.len() && i >= b.len()) && part(a, i as int) == part(b, i as int) {
        lemma_greater_from_asymmetric(a, b, i + 1);
    }
}

/// Being newer is transitive from position `i` on.
proof fn lemma_greater_from_transitive(a: Seq<nat>, b: Seq<nat>, c: Seq<nat>, i: nat)
    requires
        greater_from(a, b, i),
        greater_from(b, c, i),
    ensures
        greater_from(a, c, i),
    decreases (if a.len() > b.len() { if a.len() > c.len() { a.len() } else { c.len() } } else { if b.len() > c.len() { b.len() } else { c.len() } }) - i,
{
    if part(a, i as int) == part(b, i as int) && part(b, i as int) == part(c, i as int) {
        if i >= a.len() && i >= c.len() {
            assert(greater_from(b, c, i + 1));
            assert(i < b.len());
            assert(greater_from(a, b, i + 1));
        }
        lemma_greater_from_transitive(a, b, c, i + 1);
    }
}

/// No version is newer than itself, of two versions at most one is newer,
/// and being newer is transitive.
pub proof fn law_version_order(a: Seq<char>, b: Seq<char>, c: Seq<char>)
    ensures
        !version_greater(a, a),
        !(version_greater(a, b) && version_greater(b, a)),
        version_greater(a, b) && version_greater(b, c) ==> version_greater(a, c),
{
    lemma_greater_from_irreflexive(version_parts(a), 0);
    lemma_greater_from_asymmetric(version_parts(a), version_parts(b), 0);
    if version_greater(a, b) && version_greater(b, c) {
        lemma_greater_from_transitive(version_parts(a), version_parts(b), version_parts(c), 0);
    }
}

} // verus!
