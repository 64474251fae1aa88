//! Telling NTFS junctions from symbolic links, and following a chain of
//! them to its end. The file-system queries are the caller's part.
use vstd::prelude::*;
use crate::path::{is_absolute, parent_of, parent_text, path_is_absolute, push_path, push_path_str};
use crate::package_manager::texts;
use crate::path_order::{contains_path, list_contains_path};
use crate::text::{chars_of, copy_range, decode_utf16_lossy, has_prefix, string_of, utf16_lossy};
use crate::windows_api::{is_reparse_attributes, FILE_ATTRIBUTE_REPARSE_POINT, INVALID_FILE_ATTRIBUTES};

verus! {

/// `IO_REPARSE_TAG_MOUNT_POINT`: a junction.
pub const IO_REPARSE_TAG_MOUNT_POINT: u32 = 0xA000_0003;

/// `IO_REPARSE_TAG_SYMLINK`: a symbolic link.
pub const IO_REPARSE_TAG_SYMLINK: u32 = 0xA000_000C;

/// Why a reparse point could not be followed.
#[derive(Debug, Clone, Copy, PartialEq, Eq, Structural)]
pub enum JunctionError {
    /// The path is not a reparse point.
    NotReparsePoint,
    /// The reparse tag is neither a junction's nor a symbolic link's.
    UnsupportedTag(u32),
    /// Following the chain came back to a path already seen.
    CircularReference,
}

/// Detector for junctions and symbolic links.
pub struct JunctionDetector;

/// `s` without the `\??\` prefix, if it has one.
pub open spec fn strip_nt(s: Seq<char>) -> Seq<char> {
    if has_prefix(s, seq!['\\', '?', '?', '\\']) {
        s.subrange(4, s.len() as int)
    } else {
        s
    }
}

impl JunctionDetector {
    /// A detector.
    pub fn new() -> (d: Self) {
        JunctionDetector
    }

    /// Whether attributes read for a path mark a reparse point.
    pub fn is_reparse_point(&self, attributes: u32) -> (b: bool)
        ensures
            b == (attributes != INVALID_FILE_ATTRIBUTES && attributes & FILE_ATTRIBUTE_REPARSE_POINT != 0),
    {
        is_reparse_attributes(attributes)
    }

    /// Whether a path is a junction: a reparse point with a mount-point tag.
    pub fn is_junction(&self, is_reparse: bool, tag: u32) -> (b: bool)
        ensures
            b == (is_reparse && tag == IO_REPARSE_TAG_MOUNT_POINT),
    {
        is_reparse && tag == IO_REPARSE_TAG_MOUNT_POINT
    }

    /// Whether a path is a symbolic link: a reparse point with a symlink tag.
    pub fn is_symlink(&self, is_reparse: bool, tag: u32) -> (b: bool)
        ensures
            b == (is_reparse && tag == IO_REPARSE_TAG_SYMLINK),
    {
        is_reparse && tag == IO_REPARSE_TAG_SYMLINK
    }

    /// The target a reparse point names, from its tag and the UTF-16 units
    /// of its substitute name: decoded with replacement, the `\??\` prefix
    /// removed; other tags are refused.
    pub fn target_from_name(&self, is_reparse: bool, tag: u32, name: &[u16]) -> (r: Result<String, JunctionError>)
        ensures
            !is_reparse ==> r == Err::<String, JunctionError>(JunctionError::NotReparsePoint),
            is_reparse && tag != IO_REPARSE_TAG_MOUNT_POINT && tag != IO_REPARSE_TAG_SYMLINK ==> r
                == Err::<String, JunctionError>(JunctionError::UnsupportedTag(tag)),
            is_reparse && (tag == IO_REPARSE_TAG_MOUNT_POINT || tag == IO_REPARSE_TAG_SYMLINK) ==> (r matches Ok(
                s,
            ) && s@ == strip_nt(utf16_lossy(name@))),
    {
        if !is_reparse {
            return Err(JunctionError::NotReparsePoint);
        }
        if tag != IO_REPARSE_TAG_MOUNT_POINT && tag != IO_REPARSE_TAG_SYMLINK {
            return Err(JunctionError::UnsupportedTag(tag));
        }
        let text = decode_utf16_lossy(name);
        Ok(strip_nt_prefix(text.as_str()))
    }

    /// Start following the chain of reparse points from `path`.
    pub fn resolve_target(&self, path: &str) -> (r: Resolver)
        ensures
            r.current() == path@,
            r.seen_paths().len() == 0,
    {
        let r = Resolver { current: crate::text::to_owned(path), seen: Vec::new() };
        assert(r.seen_paths() =~= Seq::<Seq<char>>::empty());
        r
    }
}

/// The text of a path without the `\??\` prefix, if it has one.
pub fn strip_nt_prefix(s: &str) -> (r: String)
    ensures
        r@ == strip_nt(s@),
{
    let v = chars_of(s);
    let p: Vec<char> = vec!['\\', '?', '?', '\\'];
    if crate::text::starts_with(&v, &p) {
        string_of(&copy_range(&v, 4, v.len()))
    } else {
        string_of(&v)
    }
}

/// What to do next while following a chain of reparse points.
#[derive(Debug, Clone)]
pub enum ResolveStep {
    /// Check whether this path is a reparse point, and if so read its target.
    Query(String),
    /// The chain came back to a path already seen.
    Circular,
}

/// The state of following a chain of reparse points: the path reached, and
/// the paths already visited.
pub struct Resolver {
    current: String,
    seen: Vec<String>,
}

impl Resolver {
    /// The path reached.
    pub closed spec fn current(&self) -> Seq<char> {
        self.current@
    }

    /// The paths already visited, in order.
    pub closed spec fn seen_paths(&self) -> Seq<Seq<char>> {
        self.seen@.map_values(|s: String| s@)
    }

    /// The next step: a path equal to one seen before ends the walk as
    /// circular; otherwise it is recorded and queried.
    pub fn next_step(&mut self) -> (s: ResolveStep)
        ensures
            final(self).current() == old(self).current(),
            contains_path(old(self).seen_paths(), old(self).current()) ==> (s matches ResolveStep::Circular
                && final(self).seen_paths() == old(self).seen_paths()),
            !contains_path(old(self).seen_paths(), old(self).current()) ==> (s matches ResolveStep::Query(p)
                && p@ == old(self).current() && final(self).seen_paths() == old(self).seen_paths().push(
                old(self).current(),
            )),
    {
        let ghost seen0 = self.seen_paths();
        assert(seen0 == texts(self.seen@));
        if list_contains_path(&self.seen, self.current.as_str()) {
            return ResolveStep::Circular;
        }
        let c = self.current.clone();
        self.seen.push(c);
        assert(self.seen_paths() =~= seen0.push(self.current@));
        ResolveStep::Query(self.current.clone())
    }

    /// The path reached is not a reparse point: it is the end of the chain.
    pub fn finish(self) -> (p: String)
        ensures
            p@ == self.current(),
    {
        self.current
    }

    /// The path reached is a reparse point with this target: an absolute
    /// target is taken as it is, a relative one is joined onto the directory
    /// of the link that holds it (the parent of the path reached), or taken
    /// as it is when that path has no parent.
    pub fn follow(&mut self, target: &str)
        ensures
            final(self).seen_paths() == old(self).seen_paths(),
            final(self).current() == (if is_absolute(target@) {
                target@
            } else {
                match parent_text(old(self).current()) {
                    Some(p) => push_path(p, target@),
                    None => target@,
                }
            }),
    {
        if path_is_absolute(target) {
            self.current = crate::text::to_owned(target);
        } else {
            let next = match parent_of(self.current.as_str()) {
                Some(p) => push_path_str(p.as_str(), target),
                None => crate::text::to_owned(target),
            };
            self.current = next;
        }
    }
}

} // verus!
