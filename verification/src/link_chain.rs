//! Following a chain of junctions and symbolic links to its end, over a
//! description of the reparse points on disk, and reading a link's
//! substitute name out of the reparse data that `FSCTL_GET_REPARSE_POINT`
//! returns.
use vstd::prelude::*;
use crate::junction::{JunctionError, IO_REPARSE_TAG_MOUNT_POINT, IO_REPARSE_TAG_SYMLINK};
use crate::path::{is_absolute, parent_of, parent_text, path_is_absolute, push_path, push_path_str};
use crate::path_order::{paths_equal, same_path};
use crate::text::to_owned;

verus! {

// ---------------------------------------------------------------------------
// The chain
// ---------------------------------------------------------------------------

/// The first reparse point, from index `k` on, that is the same path as
/// `p`; `links[j]` is a reparse point and the target it names.
pub open spec fn link_from(links: Seq<(String, String)>, p: Seq<char>, k: int) -> Option<int>
    decreases links.len() - k,
{
    if k < 0 || k >= links.len() {
        None
    } else if same_path(links[k].0@, p) {
        Some(k)
    } else {
        link_from(links, p, k + 1)
    }
}

/// The reparse point at `p`, if `p` is one.
pub open spec fn link_of(links: Seq<(String, String)>, p: Seq<char>) -> Option<int> {
    link_from(links, p, 0)
}

/// Where a link at `current` with this target leads: an absolute target as
/// it is, a relative one joined onto the directory of the link (or as it is
/// when the link has no parent).
pub open spec fn next_path(current: Seq<char>, target: Seq<char>) -> Seq<char> {
    if is_absolute(target) {
        target
    } else {
        match parent_text(current) {
            Some(q) => push_path(q, target),
            None => target,
        }
    }
}

/// The reparse points not yet visited.
pub open spec fn unvisited(vis: Seq<bool>) -> nat
    decreases vis.len(),
{
    if vis.len() == 0 {
        0
    } else {
        unvisited(vis.drop_last()) + (if vis.last() { 0nat } else { 1nat })
    }
}

/// Marking an unvisited reparse point visited leaves one fewer unvisited.
pub proof fn lemma_unvisited_update(vis: Seq<bool>, j: int)
    requires
        0 <= j < vis.len(),
        !vis[j],
    ensures
        unvisited(vis.update(j, true)) + 1 == unvisited(vis),
    decreases vis.len(),
{
    let u = vis.update(j, true);
    if j == vis.len() - 1 {
        assert(u.drop_last() =~= vis.drop_last());
    } else {
        lemma_unvisited_update(vis.drop_last(), j);
        assert(u.drop_last() =~= vis.drop_last().update(j, true));
    }
}

/// Where following the chain from `p` ends, with `vis` marking the reparse
/// points already passed: at the first path that is not a reparse point, or
/// nowhere (`None`) when the chain comes back to a reparse point already
/// passed.
pub open spec fn walk(links: Seq<(String, String)>, p: Seq<char>, vis: Seq<bool>) -> Option<Seq<char>>
    decreases unvisited(vis),
{
    match link_of(links, p) {
        None => Some(p),
        Some(j) => if 0 <= j < vis.len() && !vis[j] {
            proof {
                lemma_unvisited_update(vis, j);
            }
            walk(links, next_path(p, links[j].1@), vis.update(j, true))
        } else {
            None
        },
    }
}

/// No reparse point passed yet.
pub open spec fn none_visited(n: nat) -> Seq<bool> {
    Seq::new(n, |i: int| false)
}

proof fn lemma_link_from_range(links: Seq<(String, String)>, p: Seq<char>, k: int)
    ensures
        link_from(links, p, k) matches Some(j) ==> k <= j < links.len() && same_path(links[j].0@, p),
    decreases links.len() - k,
{
    if 0 <= k < links.len() && !same_path(links[k].0@, p) {
        lemma_link_from_range(links, p, k + 1);
    }
}

fn find_link(links: &[(String, String)], p: &str) -> (r: Option<usize>)
    ensures
        match link_of(links@, p@) {
            Some(j) => r == Some(j as usize),
            None => r is None,
        },
{
    let mut k: usize = 0;
    while k < links.len()
        invariant
            0 <= k <= links@.len(),
            link_of(links@, p@) == link_from(links@, p@, k as int),
        decreases links@.len() - k,
    {
        if paths_equal(links[k].0.as_str(), p) {
            return Some(k);
        }
        k += 1;
    }
    None
}

fn next_path_str(current: &str, target: &str) -> (r: String)
    ensures
        r@ == next_path(current@, target@),
{
    if path_is_absolute(target) {
        to_owned(target)
    } else {
        match parent_of(current) {
            Some(q) => push_path_str(q.as_str(), target),
            None => to_owned(target),
        }
    }
}

/// The final target of the chain of reparse points from `start`, where
/// `links[j]` is a reparse point on disk and the target it names: the first
/// path reached that is not a reparse point, or `CircularReference` when
/// the chain comes back to a reparse point already passed. It always ends.
pub fn resolve_chain(start: &str, links: &[(String, String)]) -> (r: Result<String, JunctionError>)
    ensures
        match walk(links@, start@, none_visited(links@.len())) {
            Some(p) => r matches Ok(s) && s@ == p,
            None => r == Err::<String, JunctionError>(JunctionError::CircularReference),
        },
{
    let mut vis: Vec<bool> = Vec::new();
    let mut k: usize = 0;
    while k < links.len()
        invariant
            0 <= k <= links@.len(),
            vis@ == none_visited(k as nat),
        decreases links@.len() - k,
    {
        vis.push(false);
        assert(vis@ =~= none_visited(k as nat + 1));
        k += 1;
    }
    let mut current = to_owned(start);
    loop
        invariant
            vis@.len() == links@.len(),
            walk(links@, current@, vis@) == walk(links@, start@, none_visited(links@.len())),
        decreases unvisited(vis@),
    {
        proof {
            lemma_link_from_range(links@, current@, 0);
        }
        match find_link(links, current.as_str()) {
            None => {
                return Ok(current);
            },
            Some(j) => {
                if vis[j] {
                    return Err(JunctionError::CircularReference);
                }
                proof {
                    lemma_unvisited_update(vis@, j as int);
                }
                let next = next_path_str(current.as_str(), links[j].1.as_str());
                vis.set(j, true);
                current = next;
            },
        }
    }
}

/// Where a chain ends is never a reparse point.
pub proof fn law_chain_ends_off_links(links: Seq<(String, String)>, p: Seq<char>, vis: Seq<bool>)
    ensures
        walk(links, p, vis) matches Some(q) ==> link_of(links, q) is None,
    decreases unvisited(vis),
{
    match link_of(links, p) {
        None => {},
        Some(j) => {
            if 0 <= j < vis.len() && !vis[j] {
                lemma_unvisited_update(vis, j);
                law_chain_ends_off_links(links, next_path(p, links[j].1@), vis.update(j, true));
            }
        },
    }
}

/// A path that is not a reparse point is its own end; a reparse point whose
/// target leads back to itself is a circular reference.
pub proof fn law_chain_start_and_loop(links: Seq<(String, String)>, p: Seq<char>)
    ensures
        link_of(links, p) is None ==> walk(links, p, none_visited(links.len())) == Some(p),
        link_of(links, p) matches Some(j) ==> (link_of(links, next_path(p, links[j].1@)) == Some(j) ==> walk(
            links,
            p,
            none_visited(links.len()),
        ) is None),
{
    lemma_link_from_range(links, p, 0);
    let vis = none_visited(links.len());
    if let Some(j) = link_of(links, p) {
        lemma_unvisited_update(vis, j);
        let p2 = next_path(p, links[j].1@);
        let vis2 = vis.update(j, true);
        if link_of(links, p2) == Some(j) {
            assert(vis2[j]);
            assert(walk(links, p2, vis2) is None);
        }
    }
}

// ---------------------------------------------------------------------------
// Reparse data
// ---------------------------------------------------------------------------

/// The little-endian 16-bit number at byte `i`.
pub open spec fn le16(b: Seq<u8>, i: int) -> nat {
    b[i] as nat + 256 * (b[i + 1] as nat)
}

/// The little-endian 32-bit number at byte `i`.
pub open spec fn le32(b: Seq<u8>, i: int) -> nat {
    le16(b, i) + 65536 * le16(b, i + 2)
}

/// Where the path buffer starts in the reparse data of a junction (after
/// the tag, the data length, the reserved field and four name fields) and
/// of a symbolic link (after a flags field too); other tags have none.
pub open spec fn path_buffer_start(tag: nat) -> Option<int> {
    if tag == IO_REPARSE_TAG_MOUNT_POINT {
        Some(16)
    } else if tag == IO_REPARSE_TAG_SYMLINK {
        Some(20)
    } else {
        None
    }
}

/// `count` little-endian UTF-16 units from byte `start`.
pub open spec fn units_at(b: Seq<u8>, start: int, count: int) -> Seq<u16> {
    Seq::new(count as nat, |k: int| le16(b, start + 2 * k) as u16)
}

/// The tag and the substitute name (as UTF-16 units) of reparse data: the
/// tag is the first four bytes; the name lies in the path buffer at the
/// offset and with the byte length of the fields at bytes 8 and 10. None
/// when the data is too short for them or the tag is neither a junction's
/// nor a symbolic link's.
pub open spec fn substitute_name_spec(b: Seq<u8>) -> Option<(u32, Seq<u16>)> {
    if b.len() < 12 {
        None
    } else {
        match path_buffer_start(le32(b, 0)) {
            None => None,
            Some(base) => {
                let start = base + le16(b, 8);
                let len = le16(b, 10) as int;
                if start + len <= b.len() {
                    Some((le32(b, 0) as u32, units_at(b, start, len / 2)))
                } else {
                    None
                }
            },
        }
    }
}

/// Read the tag and substitute name out of reparse data.
pub fn substitute_name(buf: &[u8]) -> (r: Option<(u32, Vec<u16>)>)
    ensures
        match substitute_name_spec(buf@) {
            Some((tag, units)) => r matches Some((t, v)) && t == tag && v@ == units,
            None => r is None,
        },
{
    if buf.len() < 12 {
        return None;
    }
    let tag: u64 = buf[0] as u64 + 256 * (buf[1] as u64) + 65536 * (buf[2] as u64 + 256 * (buf[3] as u64));
    let base: usize = if tag == IO_REPARSE_TAG_MOUNT_POINT as u64 {
        16
    } else if tag == IO_REPARSE_TAG_SYMLINK as u64 {
        20
    } else {
        return None;
    };
    let offset: usize = buf[8] as usize + 256 * (buf[9] as usize);
    let len: usize = buf[10] as usize + 256 * (buf[11] as usize);
    let start: usize = base + offset;
    if start + len > buf.len() {
        return None;
    }
    let count: usize = len / 2;
    let blen: usize = buf.len();
    let mut v: Vec<u16> = Vec::new();
    let mut k: usize = 0;
    while k < count
        invariant
            count == len / 2,
            start + len <= buf@.len(),
            blen == buf@.len(),
            0 <= k <= count,
            v@ == units_at(buf@, start as int, count as int).subrange(0, k as int),
        decreases count - k,
    {
        assert(2 * k + 2 <= len);
        let lo = buf[start + 2 * k] as u16;
        let hi = buf[start + 2 * k + 1] as u16;
        let unit: u16 = lo + 256 * hi;
        v.push(unit);
        assert(v@ =~= units_at(buf@, start as int, count as int).subrange(0, k as int + 1));
        k += 1;
    }
    assert(v@ =~= units_at(buf@, start as int, count as int));
    Some((tag as u32, v))
}

} // verus!
