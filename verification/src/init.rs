//! Creating a note file exactly once, crash-safely.
//!
//! The protocol writes the template to a temporary name (same stem, a `.tmp`
//! extension), then atomically promotes it to the final name; on a write
//! failure the temporary file is removed and the run ends in the reserved
//! write-failure error.  The decisions live here as a step machine: the
//! application performs one filesystem action at a time and reports its
//! outcome back.  A small model of the filesystem (a map from paths to
//! contents) states what a faithful executor does, and the protocol's
//! invariant over that model yields the idempotence and atomicity theorems.

use vstd::prelude::*;

use crate::errors::NoteError;
use crate::resolve::spec_md_suffix;
use crate::resolve::NoteTarget;

verus! {

/// The bytes of `.tmp`.
pub open spec fn spec_temp_suffix() -> Seq<u8> {
    seq![46u8, 116u8, 109u8, 112u8]
}

/// The temporary name for a target: the same stem with a `.tmp` extension
/// (appended whole when the target does not end in `.md`).
pub open spec fn spec_temp_path(t: Seq<u8>) -> Seq<u8> {
    if t.len() >= 3 && t.skip(t.len() - 3) == spec_md_suffix() {
        t.take(t.len() - 3) + spec_temp_suffix()
    } else {
        t + spec_temp_suffix()
    }
}

/// The temporary name never collides with the target itself.
pub proof fn lemma_temp_path_differs(t: Seq<u8>)
    ensures
        spec_temp_path(t) != t,
{
    assert(spec_temp_path(t).len() != t.len());
}

/// Derive the temporary name from the target name.
pub fn temp_path_of(target: &Vec<u8>) -> (r: Vec<u8>)
    ensures
        r@ == spec_temp_path(target@),
{
    let n = target.len();
    let is_md = n >= 3 && target[n - 3] == 46 && target[n - 2] == 109 && target[n - 1] == 100;
    let mut r = if is_md {
        crate::bytestr::copy_range(target, 0, n - 3)
    } else {
        crate::bytestr::copy_range(target, 0, n)
    };
    proof {
        if is_md {
            assert(target@.skip(n - 3 as int) =~= spec_md_suffix());
        } else {
            if n >= 3 {
                assert(target@.skip(n - 3 as int) != spec_md_suffix()) by {
                    if target@.skip(n - 3 as int) == spec_md_suffix() {
                        assert(target@.skip(n - 3 as int)[0] == target@[n - 3 as int]);
                        assert(target@.skip(n - 3 as int)[1] == target@[n - 2 as int]);
                        assert(target@.skip(n - 3 as int)[2] == target@[n - 1 as int]);
                    }
                };
            }
            assert(r@ =~= target@);
        }
    }
    r.push(46);
    r.push(116);
    r.push(109);
    r.push(112);
    proof {
        assert(r@ =~= spec_temp_path(target@));
    }
    r
}

/// Where the protocol stands.
#[derive(Clone, Copy, PartialEq, Eq, Structural, Debug)]
pub enum InitPhase {
    /// Asking whether the target already exists.
    Probing,
    /// Asking for exclusive creation of the temporary file.
    Creating,
    /// Asking for the template to be written to the temporary file.
    Writing,
    /// Asking for the temporary file to be renamed onto the target.
    Renaming,
    /// Asking for the temporary file to be removed after a failed write.
    CleaningUp,
    /// Finished; the outcome is set.
    Done,
}

/// How a finished run ended, short of an error.
#[derive(Clone, Copy, PartialEq, Eq, Structural, Debug)]
pub enum InitOutcome {
    /// The note file was created and promoted.
    Created,
    /// The target already existed; nothing was touched.
    AlreadyExists,
    /// The temporary file already existed: someone already started; benign.
    TempBusy,
}

/// The one filesystem action the application must perform next.
#[derive(Clone, Copy, PartialEq, Eq, Structural, Debug)]
pub enum InitAction {
    /// Report whether the target path exists.
    CheckTarget,
    /// Create the temporary file with create-only semantics; report success.
    CreateTemp,
    /// Write the whole template to the temporary file; report success.
    WriteTemp,
    /// Rename the temporary file onto the target; report success.
    RenameTemp,
    /// Remove the temporary file (cleanup after a failed write).
    RemoveTemp,
    /// Nothing more to do; consult the outcome.
    Stop,
}

/// What the application reports back after performing an action.
#[derive(Clone, Copy, PartialEq, Eq, Structural, Debug)]
pub enum InitEvent {
    TargetExists(bool),
    TempCreated(bool),
    WriteDone(bool),
    RenameDone(bool),
    TempRemoved,
}

/// The initializer's state between actions.
pub struct NoteInit {
    pub target: Vec<u8>,
    pub temp: Vec<u8>,
    pub content: Vec<u8>,
    pub phase: InitPhase,
    pub outcome: Option<Result<InitOutcome, NoteError>>,
}

/// The transition relation of the protocol: from a phase and the reported
/// event to the next phase, the next action, and the outcome once done.
pub open spec fn spec_step(phase: InitPhase, ev: InitEvent) -> (
    InitPhase,
    InitAction,
    Option<Result<InitOutcome, NoteError>>,
) {
    match (phase, ev) {
        (InitPhase::Probing, InitEvent::TargetExists(true)) => (
            InitPhase::Done,
            InitAction::Stop,
            Some(Ok(InitOutcome::AlreadyExists)),
        ),
        (InitPhase::Probing, InitEvent::TargetExists(false)) => (
            InitPhase::Creating,
            InitAction::CreateTemp,
            None,
        ),
        (InitPhase::Creating, InitEvent::TempCreated(true)) => (
            InitPhase::Writing,
            InitAction::WriteTemp,
            None,
        ),
        (InitPhase::Creating, InitEvent::TempCreated(false)) => (
            InitPhase::Done,
            InitAction::Stop,
            Some(Ok(InitOutcome::TempBusy)),
        ),
        (InitPhase::Writing, InitEvent::WriteDone(true)) => (
            InitPhase::Renaming,
            InitAction::RenameTemp,
            None,
        ),
        (InitPhase::Writing, InitEvent::WriteDone(false)) => (
            InitPhase::CleaningUp,
            InitAction::RemoveTemp,
            None,
        ),
        (InitPhase::Renaming, InitEvent::RenameDone(true)) => (
            InitPhase::Done,
            InitAction::Stop,
            Some(Ok(InitOutcome::Created)),
        ),
        (InitPhase::Renaming, InitEvent::RenameDone(false)) => (
            InitPhase::Done,
            InitAction::Stop,
            Some(Err(NoteError::RenameFailure)),
        ),
        (InitPhase::CleaningUp, InitEvent::TempRemoved) => (
            InitPhase::Done,
            InitAction::Stop,
            Some(Err(NoteError::WriteFailure)),
        ),
        _ => (InitPhase::Done, InitAction::Stop, None),
    }
}

impl NoteInit {
    /// The machine's internal consistency.
    pub open spec fn wf(self) -> bool {
        &&& self.temp@ == spec_temp_path(self.target@)
        &&& (self.phase is Done <==> self.outcome is Some)
    }

    /// Which event kind the current phase is waiting for.
    pub open spec fn expects(self, ev: InitEvent) -> bool {
        match self.phase {
            InitPhase::Probing => ev is TargetExists,
            InitPhase::Creating => ev is TempCreated,
            InitPhase::Writing => ev is WriteDone,
            InitPhase::Renaming => ev is RenameDone,
            InitPhase::CleaningUp => ev is TempRemoved,
            InitPhase::Done => false,
        }
    }

    /// Feed the outcome of the last action in; get the next action.
    pub fn step(&mut self, ev: InitEvent) -> (a: InitAction)
        requires
            old(self).wf(),
            !(old(self).phase is Done),
            old(self).expects(ev),
        ensures
            final(self).wf(),
            final(self).target == old(self).target,
            final(self).temp == old(self).temp,
            final(self).content == old(self).content,
            (final(self).phase, a, final(self).outcome) == spec_step(old(self).phase, ev),
    {
        match (self.phase, ev) {
            (InitPhase::Probing, InitEvent::TargetExists(true)) => {
                self.phase = InitPhase::Done;
                self.outcome = Some(Ok(InitOutcome::AlreadyExists));
                InitAction::Stop
            },
            (InitPhase::Probing, InitEvent::TargetExists(false)) => {
                self.phase = InitPhase::Creating;
                InitAction::CreateTemp
            },
            (InitPhase::Creating, InitEvent::TempCreated(true)) => {
                self.phase = InitPhase::Writing;
                InitAction::WriteTemp
            },
            (InitPhase::Creating, InitEvent::TempCreated(false)) => {
                self.phase = InitPhase::Done;
                self.outcome = Some(Ok(InitOutcome::TempBusy));
                InitAction::Stop
            },
            (InitPhase::Writing, InitEvent::WriteDone(true)) => {
                self.phase = InitPhase::Renaming;
                InitAction::RenameTemp
            },
            (InitPhase::Writing, InitEvent::WriteDone(false)) => {
                self.phase = InitPhase::CleaningUp;
                InitAction::RemoveTemp
            },
            (InitPhase::Renaming, InitEvent::RenameDone(true)) => {
                self.phase = InitPhase::Done;
                self.outcome = Some(Ok(InitOutcome::Created));
                InitAction::Stop
            },
            (InitPhase::Renaming, InitEvent::RenameDone(false)) => {
                self.phase = InitPhase::Done;
                self.outcome = Some(Err(NoteError::RenameFailure));
                InitAction::Stop
            },
            (InitPhase::CleaningUp, InitEvent::TempRemoved) => {
                self.phase = InitPhase::Done;
                self.outcome = Some(Err(NoteError::WriteFailure));
                InitAction::Stop
            },
            _ => {
                proof {
                    assert(false);
                }
                InitAction::Stop
            },
        }
    }
}

/// Begin the protocol for a target and template content; the first action is
/// the existence probe.
pub fn init_start(target: Vec<u8>, content: Vec<u8>) -> (r: (NoteInit, InitAction))
    ensures
        r.0.wf(),
        r.0.phase is Probing,
        r.0.outcome is None,
        r.0.target@ == target@,
        r.0.content@ == content@,
        r.1 == InitAction::CheckTarget,
{
    let temp = temp_path_of(&target);
    (
        NoteInit { target, temp, content, phase: InitPhase::Probing, outcome: None },
        InitAction::CheckTarget,
    )
}

/// Turn a finished machine into the resolved target: `Some` on success, with
/// `already_exists` set unless this very run created the file.
pub fn finish(m: NoteInit) -> (r: Option<NoteTarget>)
    requires
        m.wf(),
    ensures
        r is Some <==> (m.phase is Done && m.outcome matches Some(Ok(_))),
        r matches Some(t) ==> t.path@ == m.target@ && (t.already_exists <==> m.outcome != Some(
            Ok::<InitOutcome, NoteError>(InitOutcome::Created),
        )),
{
    match m.phase {
        InitPhase::Done => match m.outcome {
            Some(Ok(InitOutcome::Created)) => Some(
                NoteTarget { path: m.target, already_exists: false },
            ),
            Some(Ok(_)) => Some(NoteTarget { path: m.target, already_exists: true }),
            _ => None,
        },
        _ => None,
    }
}

/// What a faithful executor does: given the machine and the action it was
/// asked to perform on a filesystem `fs` (a map from paths to contents), the
/// event it may report and the filesystem it may leave behind.  A failed
/// write may leave any partial content at the temporary name; removal and
/// rename act only on the named entries; rename is all-or-nothing.
pub open spec fn executor_ok(
    m: NoteInit,
    a: InitAction,
    fs: Map<Seq<u8>, Seq<u8>>,
    ev: InitEvent,
    fs2: Map<Seq<u8>, Seq<u8>>,
) -> bool {
    match a {
        InitAction::CheckTarget => ev == InitEvent::TargetExists(fs.contains_key(m.target@)) && fs2
            == fs,
        InitAction::CreateTemp => if fs.contains_key(m.temp@) {
            ev == InitEvent::TempCreated(false) && fs2 == fs
        } else {
            ev == InitEvent::TempCreated(true) && fs2 == fs.insert(m.temp@, Seq::<u8>::empty())
        },
        InitAction::WriteTemp => (ev == InitEvent::WriteDone(true) && fs2 == fs.insert(
            m.temp@,
            m.content@,
        )) || (ev == InitEvent::WriteDone(false) && exists|junk: Seq<u8>|
            fs2 == fs.insert(m.temp@, junk)),
        InitAction::RenameTemp => (ev == InitEvent::RenameDone(true) && fs.contains_key(m.temp@)
            && fs2 == fs.remove(m.temp@).insert(m.target@, fs[m.temp@])) || (ev
            == InitEvent::RenameDone(false) && fs2 == fs),
        InitAction::RemoveTemp => ev == InitEvent::TempRemoved && fs2 == fs.remove(m.temp@),
        InitAction::Stop => false,
    }
}

/// The protocol invariant: how the filesystem relates to its initial state
/// `fs0` at every point of a run, and what each outcome guarantees.
pub open spec fn protocol_inv(
    m: NoteInit,
    a: InitAction,
    fs: Map<Seq<u8>, Seq<u8>>,
    fs0: Map<Seq<u8>, Seq<u8>>,
) -> bool {
    &&& m.wf()
    &&& match m.phase {
        InitPhase::Probing => a == InitAction::CheckTarget && fs == fs0,
        InitPhase::Creating => a == InitAction::CreateTemp && fs == fs0 && !fs0.contains_key(
            m.target@,
        ),
        InitPhase::Writing => a == InitAction::WriteTemp && !fs0.contains_key(m.target@)
            && !fs0.contains_key(m.temp@) && fs == fs0.insert(m.temp@, Seq::<u8>::empty()),
        InitPhase::Renaming => a == InitAction::RenameTemp && !fs0.contains_key(m.target@)
            && !fs0.contains_key(m.temp@) && fs == fs0.insert(m.temp@, m.content@),
        InitPhase::CleaningUp => a == InitAction::RemoveTemp && !fs0.contains_key(m.target@)
            && !fs0.contains_key(m.temp@) && exists|junk: Seq<u8>|
            fs == fs0.insert(m.temp@, junk),
        InitPhase::Done => a == InitAction::Stop && match m.outcome {
            Some(Ok(InitOutcome::AlreadyExists)) => fs == fs0 && fs0.contains_key(m.target@),
            Some(Ok(InitOutcome::TempBusy)) => fs == fs0 && !fs0.contains_key(m.target@)
                && fs0.contains_key(m.temp@),
            Some(Ok(InitOutcome::Created)) => !fs0.contains_key(m.target@) && !fs0.contains_key(
                m.temp@,
            ) && fs == fs0.insert(m.target@, m.content@),
            Some(Err(NoteError::RenameFailure)) => !fs0.contains_key(m.target@)
                && !fs0.contains_key(m.temp@) && fs == fs0.insert(m.temp@, m.content@),
            Some(Err(NoteError::WriteFailure)) => fs == fs0 && !fs0.contains_key(m.target@)
                && !fs0.contains_key(m.temp@),
            _ => false,
        },
    }
}

/// A fresh machine satisfies the invariant on any filesystem.
pub proof fn lemma_protocol_init(m: NoteInit, fs0: Map<Seq<u8>, Seq<u8>>)
    requires
        m.wf(),
        m.phase is Probing,
    ensures
        protocol_inv(m, InitAction::CheckTarget, fs0, fs0),
{
}

/// One faithful step preserves the invariant.  `m2` and `a2` are the machine
/// and action after feeding `ev` in, exactly as `step` returns them.
pub proof fn lemma_protocol_step(
    m: NoteInit,
    a: InitAction,
    fs: Map<Seq<u8>, Seq<u8>>,
    fs0: Map<Seq<u8>, Seq<u8>>,
    ev: InitEvent,
    fs2: Map<Seq<u8>, Seq<u8>>,
    m2: NoteInit,
    a2: InitAction,
)
    requires
        protocol_inv(m, a, fs, fs0),
        !(m.phase is Done),
        m.expects(ev),
        executor_ok(m, a, fs, ev, fs2),
        m2.target == m.target,
        m2.temp == m.temp,
        m2.content == m.content,
        (m2.phase, a2, m2.outcome) == spec_step(m.phase, ev),
    ensures
        protocol_inv(m2, a2, fs2, fs0),
{
    match (m.phase, ev) {
        (InitPhase::Writing, InitEvent::WriteDone(true)) => {
            assert(fs2 =~= fs0.insert(m.temp@, m.content@));
        },
        (InitPhase::Writing, InitEvent::WriteDone(false)) => {
            let junk = choose|junk: Seq<u8>| fs2 == fs.insert(m.temp@, junk);
            assert(fs2 =~= fs0.insert(m.temp@, junk));
        },
        (InitPhase::Renaming, InitEvent::RenameDone(true)) => {
            assert(fs[m.temp@] == m.content@);
            assert(fs2 =~= fs0.insert(m2.target@, m2.content@));
        },
        (InitPhase::CleaningUp, InitEvent::TempRemoved) => {
            let junk = choose|junk: Seq<u8>| fs == fs0.insert(m.temp@, junk);
            assert(fs2 =~= fs0);
        },
        _ => {},
    }
}

/// Atomicity: a run that ended in the write failure left the filesystem
/// exactly as it found it; neither the temporary nor the final name holds a
/// file.  (The write failure alone maps to the reserved exit status: see the
/// exit-code lemma beside the error type.)
pub proof fn lemma_write_failure_leaves_nothing(
    m: NoteInit,
    a: InitAction,
    fs: Map<Seq<u8>, Seq<u8>>,
    fs0: Map<Seq<u8>, Seq<u8>>,
)
    requires
        protocol_inv(m, a, fs, fs0),
        m.phase is Done,
        m.outcome == Some(Err::<InitOutcome, NoteError>(NoteError::WriteFailure)),
    ensures
        fs == fs0,
        !fs.contains_key(m.temp@),
        !fs.contains_key(m.target@),
{
}

/// A pre-existing target is never touched: throughout any faithful run on a
/// filesystem that already holds the target, the filesystem stays exactly as
/// it was, and a finished run reports `AlreadyExists`.
pub proof fn lemma_existing_target_untouched(
    m: NoteInit,
    a: InitAction,
    fs: Map<Seq<u8>, Seq<u8>>,
    fs0: Map<Seq<u8>, Seq<u8>>,
)
    requires
        protocol_inv(m, a, fs, fs0),
        fs0.contains_key(m.target@),
    ensures
        fs == fs0,
        m.phase is Done ==> m.outcome == Some(Ok::<InitOutcome, NoteError>(
            InitOutcome::AlreadyExists,
        )),
{
}

/// A run that created the note leaves exactly the template at the target.
pub proof fn lemma_created_leaves_content(
    m: NoteInit,
    a: InitAction,
    fs: Map<Seq<u8>, Seq<u8>>,
    fs0: Map<Seq<u8>, Seq<u8>>,
)
    requires
        protocol_inv(m, a, fs, fs0),
        m.phase is Done,
        m.outcome == Some(Ok::<InitOutcome, NoteError>(InitOutcome::Created)),
    ensures
        fs.contains_key(m.target@),
        fs[m.target@] == m.content@,
        forall|p: Seq<u8>| p != m.target@ ==> (fs.contains_key(p) <==> fs0.contains_key(p)),
        forall|p: Seq<u8>| p != m.target@ && fs.contains_key(p) ==> fs[p] == fs0[p],
{
}

/// Idempotence: on a filesystem that holds the target (for instance right
/// after a run that created it), a second run's very first faithful probe
/// finishes the protocol with `AlreadyExists` and touches nothing.
pub proof fn lemma_second_run_already_exists(
    m2: NoteInit,
    fs: Map<Seq<u8>, Seq<u8>>,
    ev: InitEvent,
    fs2: Map<Seq<u8>, Seq<u8>>,
)
    requires
        m2.wf(),
        m2.phase is Probing,
        fs.contains_key(m2.target@),
        executor_ok(m2, InitAction::CheckTarget, fs, ev, fs2),
    ensures
        ev == InitEvent::TargetExists(true),
        spec_step(m2.phase, ev) == (
            InitPhase::Done,
            InitAction::Stop,
            Some(Ok::<InitOutcome, NoteError>(InitOutcome::AlreadyExists)),
        ),
        fs2 == fs,
{
}

} // verus!
