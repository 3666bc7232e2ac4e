//! Mapping a classified project root to the concrete note-file path.
//!
//! Version-controlled projects get a branch-aware name under the project's
//! directory, build-system projects a fixed `braindump.md` there, and the
//! home fallback the fixed name directly under the home root.  The daily
//! resolver is independent of project context and targets a date-stamped
//! name under a fixed `daily` subdirectory.

use vstd::prelude::*;

use crate::bytestr::spec_join;
use crate::date::spec_daily_stamp;
use crate::date::Date;
use crate::errors::NoteError;
use crate::head::spec_head_note_name;
use crate::scan::MarkerKind;

verus! {

/// The bytes of `.md`.
pub open spec fn spec_md_suffix() -> Seq<u8> {
    seq![46u8, 109u8, 100u8]
}

/// The bytes of `braindump.md`, the catch-all note name.
pub open spec fn spec_braindump_name() -> Seq<u8> {
    seq![98u8, 114u8, 97u8, 105u8, 110u8, 100u8, 117u8, 109u8, 112u8, 46u8, 109u8, 100u8]
}

/// The bytes of `daily`, the subdirectory of date-stamped notes.
pub open spec fn spec_daily_dir() -> Seq<u8> {
    seq![100u8, 97u8, 105u8, 108u8, 121u8]
}

/// The resolved destination: the note file's path and whether it already
/// existed (in which case initialization is skipped).
pub struct NoteTarget {
    pub path: Vec<u8>,
    pub already_exists: bool,
}

/// Append `.md` to a note name.
pub fn with_md_suffix(name: Vec<u8>) -> (r: Vec<u8>)
    ensures
        r@ == name@ + spec_md_suffix(),
{
    let ghost n0 = name@;
    let mut r = name;
    r.push(46);
    r.push(109);
    r.push(100);
    proof {
        assert(r@ =~= n0 + spec_md_suffix());
    }
    r
}

/// The note path a project root resolves to, before any filesystem effect:
/// branch-aware under the project directory for version control, the fixed
/// catch-all name there for a build system, and the catch-all directly under
/// the home root for the fallback.  `head` is the raw content of the
/// version-control reference file, `None` when it was unreadable.
pub open spec fn spec_note_path(
    home: Seq<u8>,
    marker: MarkerKind,
    name: Seq<u8>,
    head: Option<Seq<u8>>,
) -> Result<Seq<u8>, NoteError> {
    match marker {
        MarkerKind::Git => match head {
            Some(h) => Ok(
                spec_join(spec_join(home, name), spec_head_note_name(h) + spec_md_suffix()),
            ),
            None => Err(NoteError::GitHeadUnreadable),
        },
        MarkerKind::BuildSystem => Ok(spec_join(spec_join(home, name), spec_braindump_name())),
        MarkerKind::HomeFallback => Ok(spec_join(home, spec_braindump_name())),
    }
}

/// View of a byte-path result, for stating contracts.
pub open spec fn result_bytes_view(r: Result<Vec<u8>, NoteError>) -> Result<Seq<u8>, NoteError> {
    match r {
        Ok(p) => Ok(p@),
        Err(e) => Err(e),
    }
}

/// Resolve the note path for a classified project root.  For a
/// version-control root the raw reference-file content must be supplied;
/// `None` means it was unreadable and is the one failure here.
pub fn note_path(home: &Vec<u8>, root: &crate::classify::ProjectRoot, head_content: Option<&Vec<u8>>) -> (r:
    Result<Vec<u8>, NoteError>)
    ensures
        head_content matches Some(h) ==> result_bytes_view(r) == spec_note_path(
            home@,
            root.marker,
            root.name@,
            Some(h@),
        ),
        head_content is None ==> result_bytes_view(r) == spec_note_path(
            home@,
            root.marker,
            root.name@,
            None,
        ),
{
    match root.marker {
        MarkerKind::Git => {
            match head_content {
                Some(h) => {
                    let name = crate::head::head_note_name(h);
                    let file = with_md_suffix(name);
                    let dir = crate::bytestr::join_path(home, &root.name);
                    Ok(crate::bytestr::join_path(&dir, &file))
                },
                None => Err(NoteError::GitHeadUnreadable),
            }
        },
        MarkerKind::BuildSystem => {
            let file = braindump_name();
            let dir = crate::bytestr::join_path(home, &root.name);
            Ok(crate::bytestr::join_path(&dir, &file))
        },
        MarkerKind::HomeFallback => {
            let file = braindump_name();
            Ok(crate::bytestr::join_path(home, &file))
        },
    }
}

fn braindump_name() -> (r: Vec<u8>)
    ensures
        r@ == spec_braindump_name(),
{
    let r: Vec<u8> = vec![98, 114, 97, 105, 110, 100, 117, 109, 112, 46, 109, 100];
    proof {
        assert(r@ =~= spec_braindump_name());
    }
    r
}

/// Resolution under the home fallback cannot fail, whatever the
/// reference-file situation: together with the scanner's contract (its
/// verdict is the fallback exactly when no marker exists within the depth
/// bound), marker absence never fails resolution on its own.
pub proof fn lemma_fallback_resolution_never_fails(
    home: Seq<u8>,
    name: Seq<u8>,
    head: Option<Seq<u8>>,
)
    ensures
        spec_note_path(home, MarkerKind::HomeFallback, name, head) == Ok::<Seq<u8>, NoteError>(
            spec_join(home, spec_braindump_name()),
        ),
{
}

/// The bytes of the fixed two-line skeleton written into every newly
/// initialized note file: a top-level heading and one empty checklist item
/// (`# braindump\n- [ ]\n`).
pub open spec fn spec_note_template() -> Seq<u8> {
    seq![
        35u8,
        32u8,
        98u8,
        114u8,
        97u8,
        105u8,
        110u8,
        100u8,
        117u8,
        109u8,
        112u8,
        10u8,
        45u8,
        32u8,
        91u8,
        32u8,
        93u8,
        10u8,
    ]
}

/// The template content for a fresh note file.
pub fn note_template() -> (r: Vec<u8>)
    ensures
        r@ == spec_note_template(),
{
    let r: Vec<u8> = vec![35, 32, 98, 114, 97, 105, 110, 100, 117, 109, 112, 10, 45, 32, 91, 32,
        93, 10];
    proof {
        assert(r@ =~= spec_note_template());
    }
    r
}

/// The daily note path: the two-digit day-month-year stamp under the fixed
/// `daily` subdirectory of the home root.
pub open spec fn spec_daily_note_path(home: Seq<u8>, d: Date) -> Seq<u8> {
    spec_join(spec_join(home, spec_daily_dir()), spec_daily_stamp(d) + spec_md_suffix())
}

/// Resolve the daily note path for a date, independent of project context.
pub fn daily_note_path(home: &Vec<u8>, d: &Date) -> (r: Vec<u8>)
    requires
        d.wf(),
    ensures
        r@ == spec_daily_note_path(home@, *d),
{
    let stamp = crate::date::daily_stamp(d);
    let file = with_md_suffix(stamp);
    let daily: Vec<u8> = vec![100, 97, 105, 108, 121];
    proof {
        assert(daily@ =~= spec_daily_dir());
    }
    let dir = crate::bytestr::join_path(home, &daily);
    crate::bytestr::join_path(&dir, &file)
}

} // verus!
