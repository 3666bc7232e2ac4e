//! Turning a marker hit (or exhaustion) into a typed project root.

use vstd::prelude::*;

use crate::bytestr::spec_basename;
use crate::errors::NoteError;
use crate::scan::MarkerKind;

verus! {

/// The bytes of the fixed fallback project name, `home`.
pub open spec fn spec_home_name() -> Seq<u8> {
    seq![104u8, 111u8, 109u8, 101u8]
}

/// The classified anchor for a project's notes.
#[derive(Debug)]
pub struct ProjectRoot {
    /// The human-readable project identifier: the basename of the marker's
    /// canonicalized parent directory, or the literal `home` for the fallback.
    pub name: Vec<u8>,
    /// The canonicalized directory the notes are anchored to.
    pub canonical_path: Vec<u8>,
    /// Which naming rule applies.
    pub marker: MarkerKind,
}

/// Build a `ProjectRoot` from a marker hit.  The project name is the basename
/// of the marker's canonicalized parent directory; the application passes
/// `None` when the marker has no parent or the parent cannot be
/// canonicalized, which is the orphan-marker error.
pub fn classify_marker(kind: MarkerKind, canonical_parent: Option<Vec<u8>>) -> (r: Result<
    ProjectRoot,
    NoteError,
>)
    requires
        !(kind is HomeFallback),
    ensures
        canonical_parent matches Some(p) ==> (r matches Ok(root) && root.name@ == spec_basename(p@)
            && root.canonical_path@ == p@ && root.marker == kind),
        canonical_parent is None ==> r == Err::<ProjectRoot, NoteError>(NoteError::OrphanMarkerPath),
{
    match canonical_parent {
        Some(p) => {
            let name = crate::bytestr::basename(&p);
            Ok(ProjectRoot { name, canonical_path: p, marker: kind })
        },
        None => Err(NoteError::OrphanMarkerPath),
    }
}

/// The project root used when no marker was found: anchored at the home root
/// itself, under the constant name `home`; no filesystem lookup is involved.
pub fn home_fallback_root(home: &Vec<u8>) -> (r: ProjectRoot)
    ensures
        r.name@ == spec_home_name(),
        r.canonical_path@ == home@,
        r.marker == MarkerKind::HomeFallback,
{
    let name: Vec<u8> = vec![104, 111, 109, 101];
    proof {
        assert(name@ =~= spec_home_name());
    }
    let canonical_path = crate::bytestr::copy_range(home, 0, home.len());
    proof {
        assert(canonical_path@ =~= home@);
    }
    ProjectRoot { name, canonical_path, marker: MarkerKind::HomeFallback }
}

} // verus!
