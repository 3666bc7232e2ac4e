//! The engine's decisions: which filesystem and process steps a command
//! needs, computed from plain facts about the world.
//!
//! The application gathers the inputs (configured editor, environment
//! editor, whether the home directory and the main note exist, today's
//! date), asks the engine for a plan, and then performs it: archive, create
//! with the rendered template, and finally spawn the editor.

use vstd::prelude::*;

use crate::bytestr::spec_join;
use crate::date::spec_archive_stamp;
use crate::date::Date;
use crate::errors::NoteError;

verus! {

/// The two commands: open the current main note, or archive it and start a
/// fresh one.
#[derive(Clone, Copy, PartialEq, Eq, Structural, Debug)]
pub enum Cmd {
    /// Open the latest main note, creating it first if absent.
    Open,
    /// Archive the current main note under a date stamp and start fresh.
    New,
}

impl Default for Cmd {
    /// Opening is the default command.
    fn default() -> (r: Self)
        ensures
            r == Cmd::Open,
    {
        Cmd::Open
    }
}

/// The engine.
pub struct Engine;

/// Everything the engine's decision depends on, gathered by the application.
pub struct RunRequest {
    /// The command to run.
    pub cmd: Cmd,
    /// The editor named in the configuration, if any.
    pub config_editor: Option<String>,
    /// The editor named in the environment, if any.
    pub env_editor: Option<String>,
    /// The notes home directory.
    pub home: Vec<u8>,
    /// Whether the home directory exists.
    pub home_exists: bool,
    /// Whether the main note file exists.
    pub main_exists: bool,
    /// Today's local date.
    pub today: Date,
}

/// What to do, in order: archive the main note if `archive_to` is set,
/// create it afresh if `create_main` is set, then spawn the editor on it.
#[derive(Debug)]
pub struct RunPlan {
    /// The editor to spawn.
    pub editor: String,
    /// The main note's path.
    pub main_path: Vec<u8>,
    /// Rename the existing main note to this path first, if set.
    pub archive_to: Option<Vec<u8>>,
    /// Create the main note from the rendered template.
    pub create_main: bool,
}

/// The bytes of `main.md`.
pub open spec fn spec_main_name() -> Seq<u8> {
    seq![109u8, 97u8, 105u8, 110u8, 46u8, 109u8, 100u8]
}

/// The date-stamped archive name, `main-<yyyy-mm-dd>.archive.md`.
pub open spec fn spec_archive_name(d: Date) -> Seq<u8> {
    seq![109u8, 97u8, 105u8, 110u8, 45u8] + spec_archive_stamp(d) + seq![
        46u8,
        97u8,
        114u8,
        99u8,
        104u8,
        105u8,
        118u8,
        101u8,
        46u8,
        109u8,
        100u8,
    ]
}

/// Render the archive name for a date.
pub fn archive_name(d: &Date) -> (r: Vec<u8>)
    requires
        d.wf(),
    ensures
        r@ == spec_archive_name(*d),
{
    let mut r: Vec<u8> = vec![109, 97, 105, 110, 45];
    let stamp = crate::date::archive_stamp(d);
    crate::bytestr::append_bytes(&mut r, &stamp);
    let tail: Vec<u8> = vec![46, 97, 114, 99, 104, 105, 118, 101, 46, 109, 100];
    crate::bytestr::append_bytes(&mut r, &tail);
    proof {
        assert(r@ =~= spec_archive_name(*d));
    }
    r
}

impl Engine {
    /// Decide what a command does.  The home directory must exist (fatal
    /// otherwise), an editor must come from the configuration or from the
    /// environment (the configuration wins), the main note is created
    /// whenever it is absent, and `New` on an existing main note archives it
    /// under today's stamp before creating afresh.
    pub fn run(req: RunRequest) -> (r: Result<RunPlan, NoteError>)
        requires
            req.today.wf(),
        ensures
            !req.home_exists ==> r == Err::<RunPlan, NoteError>(NoteError::HomeDirectoryMissing),
            req.home_exists && req.config_editor is None && req.env_editor is None ==> r
                == Err::<RunPlan, NoteError>(NoteError::EditorUnset),
            req.home_exists && !(req.config_editor is None && req.env_editor is None) ==> (
            r matches Ok(p) && {
                &&& req.config_editor matches Some(e) ==> p.editor@ == e@
                &&& req.config_editor is None ==> (req.env_editor matches Some(e) && p.editor@
                    == e@)
                &&& p.main_path@ == spec_join(req.home@, spec_main_name())
                &&& p.create_main == (!req.main_exists || req.cmd is New)
                &&& (p.archive_to is Some <==> (req.cmd is New && req.main_exists))
                &&& (p.archive_to matches Some(ap) ==> ap@ == spec_join(
                    req.home@,
                    spec_archive_name(req.today),
                ))
            }),
    {
        if !req.home_exists {
            return Err(NoteError::HomeDirectoryMissing);
        }
        let editor = match req.config_editor {
            Some(e) => e,
            None => match req.env_editor {
                Some(e) => e,
                None => {
                    return Err(NoteError::EditorUnset);
                },
            },
        };
        let main_name: Vec<u8> = vec![109, 97, 105, 110, 46, 109, 100];
        proof {
            assert(main_name@ =~= spec_main_name());
        }
        let main_path = crate::bytestr::join_path(&req.home, &main_name);
        let archive_to = if matches!(req.cmd, Cmd::New) && req.main_exists {
            let name = archive_name(&req.today);
            Some(crate::bytestr::join_path(&req.home, &name))
        } else {
            None
        };
        let create_main = !req.main_exists || matches!(req.cmd, Cmd::New);
        Ok(RunPlan { editor, main_path, archive_to, create_main })
    }
}

} // verus!
