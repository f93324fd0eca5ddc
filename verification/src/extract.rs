//! The release archive before it is expanded: bzip2 over tar, and the rule
//! that no member may lead out of the destination directory.

use crate::text::split;
use bzip2::read::BzDecoder;
use std::io::Read;
use tar::Archive;
use vstd::prelude::*;

verus! {

/// The byte that parts the segments of a path.
pub const SLASH: u8 = 47;

/// The byte of a dot.
pub const DOT: u8 = 46;

/// Why an archive was not expanded, or not to the end.
#[derive(Debug, Clone, PartialEq, Eq)]
pub enum ExtractionError {
    /// The bzip2 stream is damaged or ends early.
    Decompress,
    /// The tar archive inside is damaged.
    Archive,
    /// A member's path has an upward segment. Holds the member's path.
    PathEscape(Vec<u8>),
    /// A file or directory could not be written.
    Write,
}

/// What reading in memory fails with.
#[verifier::external_type_specification]
#[verifier::external_body]
pub struct ExIoError(std::io::Error);

/// What a bzip2 stream decodes to, where it decodes.
pub uninterp spec fn bzip2_decoded(data: Seq<u8>) -> Option<Seq<u8>>;

/// The paths of the members of a tar archive, in the order of the archive,
/// where the archive can be read to its end.
pub uninterp spec fn tar_member_paths(data: Seq<u8>) -> Option<Seq<Seq<u8>>>;

/// The segments of a path: what stands between its slashes.
pub open spec fn segments(path: Seq<u8>) -> Seq<Seq<u8>> {
    split(path, SLASH)
}

/// The segment `..`, which leads one directory up.
pub open spec fn is_upward(segment: Seq<u8>) -> bool {
    segment.len() == 2 && segment[0] == DOT && segment[1] == DOT
}

/// A segment that leads nowhere: an empty one, or `.`.
pub open spec fn is_idle(segment: Seq<u8>) -> bool {
    segment.len() == 0 || (segment.len() == 1 && segment[0] == DOT)
}

/// One of the first `count` segments leads up.
pub open spec fn upward_among(segs: Seq<Seq<u8>>, count: int) -> bool {
    exists|k: int| 0 <= k < count && is_upward(#[trigger] segs[k])
}

/// The path has a segment that leads up.
pub open spec fn has_upward_segment(path: Seq<u8>) -> bool {
    upward_among(segments(path), segments(path).len() as int)
}

/// How many directories below the start one stands after walking the
/// segments: each named segment leads one down, each `..` one up.
pub open spec fn depth(segs: Seq<Seq<u8>>) -> int
    decreases segs.len(),
{
    if segs.len() == 0 {
        0
    } else if is_upward(segs.last()) {
        depth(segs.drop_last()) - 1
    } else if is_idle(segs.last()) {
        depth(segs.drop_last())
    } else {
        depth(segs.drop_last()) + 1
    }
}

/// Walking the path from the destination directory leads, at some point,
/// above that directory.
pub open spec fn leaves_destination(path: Seq<u8>) -> bool {
    exists|n: int| 0 <= n <= segments(path).len() && depth(#[trigger] segments(path).take(n)) < 0
}

/// `i` is the first of the paths with an upward segment.
pub open spec fn is_first_upward(paths: Seq<Seq<u8>>, i: int) -> bool {
    &&& 0 <= i < paths.len()
    &&& has_upward_segment(paths[i])
    &&& forall|j: int| 0 <= j < i ==> !has_upward_segment(#[trigger] paths[j])
}

/// None of the paths has an upward segment.
pub open spec fn all_inside(paths: Seq<Seq<u8>>) -> bool {
    forall|i: int| 0 <= i < paths.len() ==> !has_upward_segment(#[trigger] paths[i])
}

/// Reads a bzip2 stream to its end through `bzip2::read::BzDecoder`. The
/// decoder gives the decoded bytes, or fails where the stream is damaged or
/// ends before its end mark. What it gives depends on the stream alone.
#[verifier::external_body]
fn decompress(data: &[u8]) -> (r: Result<Vec<u8>, std::io::Error>)
    ensures
        match r {
            Ok(bytes) => bzip2_decoded(data@) == Some(bytes@),
            Err(_) => bzip2_decoded(data@) is None,
        },
{
    let mut bytes = Vec::new();
    BzDecoder::new(data).read_to_end(&mut bytes)?;
    Ok(bytes)
}

/// Walks a tar archive with `tar::Archive::entries` and takes each member's
/// path from `Entry::path_bytes`. Fails where a header cannot be read. What
/// it gives depends on the archive's bytes alone.
#[verifier::external_body]
fn member_paths(tar: &[u8]) -> (r: Result<Vec<Vec<u8>>, std::io::Error>)
    ensures
        match r {
            Ok(paths) => {
                &&& tar_member_paths(tar@) matches Some(listed)
                &&& listed.len() == paths@.len()
                &&& forall|i: int| 0 <= i < paths@.len() ==> (#[trigger] paths@[i])@ == listed[i]
            },
            Err(_) => tar_member_paths(tar@) is None,
        },
{
    let mut archive = Archive::new(tar);
    let mut paths = Vec::new();
    for entry in archive.entries()? {
        paths.push(entry?.path_bytes().into_owned());
    }
    Ok(paths)
}

/// Whether the segment `path[start..end]` is `..`.
fn segment_is_upward(path: &[u8], start: usize, end: usize) -> (b: bool)
    requires
        start <= end <= path@.len(),
    ensures
        b == is_upward(path@.subrange(start as int, end as int)),
{
    end - start == 2 && path[start] == DOT && path[start + 1] == DOT
}

/// Whether a path has a segment `..`.
pub fn has_upward(path: &[u8]) -> (found: bool)
    ensures
        found == has_upward_segment(path@),
{
    let n = path.len();
    let mut found = false;
    let mut start: usize = 0;
    let mut i: usize = 0;
    while i < n
        invariant
            n == path@.len(),
            start <= i <= n,
            segments(path@.take(i as int)).len() >= 1,
            segments(path@.take(i as int)).last() == path@.subrange(start as int, i as int),
            found == upward_among(
                segments(path@.take(i as int)),
                segments(path@.take(i as int)).len() - 1,
            ),
        decreases n - i,
    {
        let ghost before = segments(path@.take(i as int));
        let ghost after = segments(path@.take(i + 1));
        proof {
            assert(path@.take(i + 1).drop_last() =~= path@.take(i as int));
        }
        if path[i] == SLASH {
            let closes = segment_is_upward(path, start, i);
            proof {
                let m = before.len() - 1;
                if found || closes {
                    let k = if found {
                        choose|k: int| 0 <= k < m && is_upward(#[trigger] before[k])
                    } else {
                        m
                    };
                    assert(is_upward(after[k]));
                }
            }
            found = found || closes;
            start = i + 1;
        } else {
            proof {
                let m = before.len() - 1;
                if found {
                    let k = choose|k: int| 0 <= k < m && is_upward(#[trigger] before[k]);
                    assert(is_upward(after[k]));
                }
            }
        }
        i += 1;
    }
    let closes = segment_is_upward(path, start, n);
    proof {
        assert(path@.take(n as int) =~= path@);
    }
    found || closes
}

/// Holds the members' paths to the rule: the first path with an upward
/// segment is refused, by name. Paths that start at the root are taken as
/// relative to the destination and pass.
pub fn check_member_paths(paths: &Vec<Vec<u8>>) -> (r: Result<(), ExtractionError>)
    ensures
        match r {
            Ok(_) => forall|i: int|
                0 <= i < paths@.len() ==> !has_upward_segment((#[trigger] paths@[i])@),
            Err(ExtractionError::PathEscape(name)) => exists|i: int|
                0 <= i < paths@.len() && name@ == (#[trigger] paths@[i])@ && has_upward_segment(
                    paths@[i]@,
                ) && forall|j: int| 0 <= j < i ==> !has_upward_segment((#[trigger] paths@[j])@),
            Err(_) => false,
        },
{
    let n = paths.len();
    let mut i: usize = 0;
    while i < n
        invariant
            n == paths@.len(),
            i <= n,
            forall|j: int| 0 <= j < i ==> !has_upward_segment((#[trigger] paths@[j])@),
        decreases n - i,
    {
        if has_upward(paths[i].as_slice()) {
            let name = paths[i].clone();
            return Err(ExtractionError::PathEscape(name));
        }
        i += 1;
    }
    Ok(())
}

/// What opening an archive gives: the tar archive that the bytes decode to,
/// where every member's path stays inside, else the first reason against
/// it, in the order damaged stream, damaged archive, first path that leads
/// out.
pub open spec fn opens_to(compressed: Seq<u8>, r: Result<Vec<u8>, ExtractionError>) -> bool {
    match r {
        Ok(tar) => {
            &&& bzip2_decoded(compressed) == Some(tar@)
            &&& tar_member_paths(tar@) matches Some(listed)
            &&& all_inside(listed)
        },
        Err(ExtractionError::Decompress) => bzip2_decoded(compressed) is None,
        Err(ExtractionError::Archive) => {
            &&& bzip2_decoded(compressed) matches Some(tar)
            &&& tar_member_paths(tar) is None
        },
        Err(ExtractionError::PathEscape(name)) => {
            &&& bzip2_decoded(compressed) matches Some(tar)
            &&& tar_member_paths(tar) matches Some(listed)
            &&& exists|i: int| #[trigger] is_first_upward(listed, i) && name@ == listed[i]
        },
        Err(ExtractionError::Write) => false,
    }
}

/// Decodes a downloaded archive and holds it to the rule on paths. Gives the
/// tar archive, ready to be expanded, or the reason why it must not be.
pub fn open_archive(compressed: &[u8]) -> (r: Result<Vec<u8>, ExtractionError>)
    ensures
        opens_to(compressed@, r),
{
    let tar = match decompress(compressed) {
        Ok(bytes) => bytes,
        Err(_) => {
            return Err(ExtractionError::Decompress);
        },
    };
    let paths = match member_paths(tar.as_slice()) {
        Ok(paths) => paths,
        Err(_) => {
            return Err(ExtractionError::Archive);
        },
    };
    let ghost listed = tar_member_paths(tar@)->0;
    match check_member_paths(&paths) {
        Ok(_) => {
            proof {
                assert forall|i: int| 0 <= i < listed.len() implies !has_upward_segment(
                    #[trigger] listed[i],
                ) by {
                    assert(paths@[i]@ == listed[i]);
                }
            }
            Ok(tar)
        },
        Err(ExtractionError::PathEscape(name)) => {
            proof {
                let i = choose|i: int|
                    0 <= i < paths@.len() && name@ == (#[trigger] paths@[i])@
                        && has_upward_segment(paths@[i]@) && forall|j: int|
                        0 <= j < i ==> !has_upward_segment((#[trigger] paths@[j])@);
                assert forall|j: int| 0 <= j < i implies !has_upward_segment(
                    #[trigger] listed[j],
                ) by {
                    assert(paths@[j]@ == listed[j]);
                }
                assert(is_first_upward(listed, i));
            }
            Err(ExtractionError::PathEscape(name))
        },
        Err(other) => Err(other),
    }
}

/// With no upward segment one never stands above the start.
proof fn lemma_depth_not_negative(segs: Seq<Seq<u8>>)
    requires
        !upward_among(segs, segs.len() as int),
    ensures
        depth(segs) >= 0,
    decreases segs.len(),
{
    if segs.len() > 0 {
        let init = segs.drop_last();
        lemma_depth_not_negative(init);
    }
}

/// A path that leads above the destination directory has an upward segment,
/// so it is refused.
pub proof fn lemma_leaving_path_is_refused(path: Seq<u8>)
    requires
        leaves_destination(path),
    ensures
        has_upward_segment(path),
{
    let segs = segments(path);
    if !has_upward_segment(path) {
        let n = choose|n: int| 0 <= n <= segs.len() && depth(#[trigger] segs.take(n)) < 0;
        let head = segs.take(n);
        lemma_depth_not_negative(head);
    }
}

} // verus!
