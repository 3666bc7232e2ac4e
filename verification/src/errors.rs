//! The error taxonomy of the resolution subsystem, and its exit-code mapping.

use vstd::prelude::*;

verus! {

/// Everything that can go wrong while resolving and initializing a note file.
///
/// A write failure during initialization is deliberately kept apart from the
/// other conditions: it maps to a reserved process exit status and must never
/// travel the ordinary error path.
#[derive(Clone, Copy, PartialEq, Eq, Structural, Debug)]
pub enum NoteError {
    /// The configured home root is absent or undiscoverable; fatal, no fallback.
    HomeDirectoryMissing,
    /// The ancestor walk ran out of levels without a marker; the caller falls
    /// back to the home-based root.
    ScanDepthExceeded,
    /// A marker was found but its containing project directory could not be
    /// derived (no parent, or the parent could not be canonicalized).
    OrphanMarkerPath,
    /// A version-control marker is present but its reference file is unreadable.
    GitHeadUnreadable,
    /// No editor is configured and none was found in the environment.
    EditorUnset,
    /// Writing the note template to the temporary file failed; fatal, mapped
    /// to the reserved exit status after cleanup.
    WriteFailure,
    /// Promoting the temporary file to its final name failed; fatal, surfaced
    /// as an ordinary propagated error.
    RenameFailure,
}

/// Exit status for every ordinary fatal error.
pub const EXIT_GENERAL_FAILURE: i32 = 1;

/// Reserved exit status signalling an unrecoverable write failure; never used
/// for ordinary error propagation.
pub const EXIT_WRITE_FAILURE: i32 = 74;

/// The process exit status that a fatal error maps to.
pub open spec fn spec_exit_code(e: NoteError) -> i32 {
    if e is WriteFailure {
        EXIT_WRITE_FAILURE
    } else {
        EXIT_GENERAL_FAILURE
    }
}

/// Map a fatal error to the exit status the process terminates with.
pub fn exit_code(e: &NoteError) -> (r: i32)
    ensures
        r == spec_exit_code(*e),
        r != 0,
{
    match e {
        NoteError::WriteFailure => EXIT_WRITE_FAILURE,
        _ => EXIT_GENERAL_FAILURE,
    }
}

/// The reserved write-failure status is held by write failures alone: no
/// other error can reach it through the exit-code mapping.
pub proof fn lemma_write_failure_code_reserved(e: NoteError)
    ensures
        spec_exit_code(e) == EXIT_WRITE_FAILURE <==> e is WriteFailure,
        spec_exit_code(e) != 0,
{
}

} // verus!
