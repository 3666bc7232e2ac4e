//! Ascending the directory ancestry in search of a project marker.
//!
//! The scanner works on a snapshot of the walk that the application gathers:
//! for each ancestor directory (nearest first, naturally ending at the
//! filesystem root) it is told which of the ordered marker names exist there.
//! The first marker in list order at the nearest level wins; past the depth
//! bound, or when the ancestry is exhausted, resolution falls back to the
//! home-based root instead of failing.

use vstd::prelude::*;

use crate::bytestr::spec_join;
use crate::errors::NoteError;

verus! {

/// How many ancestor levels (the start directory included) are examined.
pub const MAX_SCAN_DEPTH: usize = 8;

/// What kind of project a marker identifies.
#[derive(Clone, Copy, PartialEq, Eq, Structural, Debug)]
pub enum MarkerKind {
    /// A version-control metadata directory.
    Git,
    /// A build or package manifest of some ecosystem.
    BuildSystem,
    /// No marker found: notes fall back to the home root itself.
    HomeFallback,
}

/// One recognized marker filename and the kind it identifies.
pub struct MarkerDef {
    pub name: Vec<u8>,
    pub kind: MarkerKind,
}

/// One level of the ancestor walk: the directory's absolute path and, for
/// each marker in the ordered list, whether it exists there.
pub struct DirLevel {
    pub path: Vec<u8>,
    pub present: Vec<bool>,
}

/// The marker names recognized by default, in priority order: the
/// version-control metadata directory first, then the build manifest.
pub fn default_markers() -> (r: Vec<MarkerDef>)
    ensures
        r@.len() == 2,
        r@[0].name@ == seq![46u8, 103u8, 105u8, 116u8],
        r@[0].kind == MarkerKind::Git,
        r@[1].name@ == seq![
            67u8,
            97u8,
            114u8,
            103u8,
            111u8,
            46u8,
            116u8,
            111u8,
            109u8,
            108u8,
        ],
        r@[1].kind == MarkerKind::BuildSystem,
{
    let git: Vec<u8> = vec![46, 103, 105, 116];
    let cargo: Vec<u8> = vec![67, 97, 114, 103, 111, 46, 116, 111, 109, 108];
    proof {
        assert(git@ =~= seq![46u8, 103u8, 105u8, 116u8]);
        assert(cargo@ =~= seq![67u8, 97u8, 114u8, 103u8, 111u8, 46u8, 116u8, 111u8, 109u8, 108u8]);
    }
    let mut r: Vec<MarkerDef> = Vec::new();
    r.push(MarkerDef { name: git, kind: MarkerKind::Git });
    r.push(MarkerDef { name: cargo, kind: MarkerKind::BuildSystem });
    r
}

/// Whether some marker exists at this level.
pub open spec fn level_has_hit(level: DirLevel) -> bool {
    exists|i: int| 0 <= i < level.present@.len() && level.present@[i]
}

/// Whether any level within the depth bound has a marker.
pub open spec fn any_hit_within_bound(levels: Seq<DirLevel>) -> bool {
    exists|l: int| 0 <= l < levels.len() && l <= MAX_SCAN_DEPTH && level_has_hit(levels[l])
}

/// The scanner's verdict.
pub enum ScanOutcome {
    /// A marker was found: at which level, which marker of the list, the
    /// marker's own absolute path, and its kind.
    Hit { level: usize, marker: usize, marker_path: Vec<u8>, kind: MarkerKind },
    /// No marker within the depth bound: fall back to the home-based root.
    Fallback,
}

/// The least marker index present at this level, if any.
fn first_marker_at(level: &DirLevel) -> (r: Option<usize>)
    ensures
        r matches Some(i) ==> (i < level.present@.len() && level.present@[i as int] && forall|
            j: int,
        | 0 <= j < i ==> !level.present@[j]),
        r is None ==> !level_has_hit(*level),
{
    let mut i: usize = 0;
    while i < level.present.len()
        invariant
            i <= level.present@.len(),
            forall|j: int| 0 <= j < i ==> !level.present@[j],
        decreases level.present@.len() - i,
    {
        if level.present[i] {
            return Some(i);
        }
        i = i + 1;
    }
    None
}

/// Walk the ancestry snapshot, nearest level first, and report the first
/// marker hit within the depth bound, or the fallback verdict.  Marker
/// absence alone never fails: exhaustion of the ancestry and exceeding the
/// depth bound both land in the home fallback.
pub fn scan_for_marker(levels: &Vec<DirLevel>, markers: &Vec<MarkerDef>) -> (r: ScanOutcome)
    requires
        forall|l: int| 0 <= l < levels@.len() ==> #[trigger] levels@[l].present@.len()
            == markers@.len(),
    ensures
        r matches ScanOutcome::Hit { level, marker, marker_path, kind } ==> {
            &&& level < levels@.len() && level <= MAX_SCAN_DEPTH
            &&& marker < markers@.len()
            &&& levels@[level as int].present@[marker as int]
            &&& forall|l: int| 0 <= l < level ==> !level_has_hit(levels@[l])
            &&& forall|j: int| 0 <= j < marker ==> !levels@[level as int].present@[j]
            &&& marker_path@ == spec_join(levels@[level as int].path@, markers@[
                marker as int].name@)
            &&& kind == markers@[marker as int].kind
        },
        r is Fallback <==> !any_hit_within_bound(levels@),
{
    let mut l: usize = 0;
    while l < levels.len() && l <= MAX_SCAN_DEPTH
        invariant
            forall|k: int| 0 <= k < levels@.len() ==> #[trigger] levels@[k].present@.len()
                == markers@.len(),
            l <= levels@.len(),
            forall|k: int| 0 <= k < l ==> !level_has_hit(levels@[k]),
        decreases levels@.len() - l,
    {
        match first_marker_at(&levels[l]) {
            Some(m) => {
                proof {
                    assert(levels@[l as int].present@[m as int]);
                    assert(level_has_hit(levels@[l as int]));
                    assert(any_hit_within_bound(levels@));
                }
                let marker_path = crate::bytestr::join_path(&levels[l].path, &markers[m].name);
                return ScanOutcome::Hit {
                    level: l,
                    marker: m,
                    marker_path,
                    kind: markers[m].kind,
                };
            },
            None => {
                l = l + 1;
            },
        }
    }
    ScanOutcome::Fallback
}

/// The ancestor directory that holds the build manifest: the first level
/// within the depth bound whose manifest flag is set.  Exhausting the
/// ancestry or the depth bound is the one error, `ScanDepthExceeded`.
pub fn find_project_root(dirs: &Vec<Vec<u8>>, has_manifest: &Vec<bool>) -> (r: Result<
    Vec<u8>,
    NoteError,
>)
    requires
        dirs@.len() == has_manifest@.len(),
    ensures
        r matches Ok(p) ==> exists|l: int|
            {
                &&& 0 <= l < dirs@.len() && l <= MAX_SCAN_DEPTH
                &&& has_manifest@[l]
                &&& (forall|j: int| 0 <= j < l ==> !has_manifest@[j])
                &&& p@ == dirs@[l]@
            },
        r is Err ==> r == Err::<Vec<u8>, NoteError>(NoteError::ScanDepthExceeded) && forall|l: int|
            0 <= l < dirs@.len() && l <= MAX_SCAN_DEPTH ==> !has_manifest@[l],
{
    let mut l: usize = 0;
    while l < dirs.len() && l <= MAX_SCAN_DEPTH
        invariant
            dirs@.len() == has_manifest@.len(),
            l <= dirs@.len(),
            forall|j: int| 0 <= j < l ==> !has_manifest@[j],
        decreases dirs@.len() - l,
    {
        if has_manifest[l] {
            let p = crate::bytestr::copy_range(&dirs[l], 0, dirs[l].len());
            proof {
                assert(p@ =~= dirs@[l as int]@);
            }
            return Ok(p);
        }
        l = l + 1;
    }
    Err(NoteError::ScanDepthExceeded)
}

} // verus!
