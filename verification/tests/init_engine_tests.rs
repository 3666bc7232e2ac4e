//! The atomic initializer driven against a simulated filesystem, the error
//! taxonomy's exit codes, the engine's plans, and the rendered template.

use std::collections::HashMap;

use baan::config::{render_template, Template};
use baan::date::Date;
use baan::engine::{archive_name, Cmd, Engine, RunRequest};
use baan::errors::{exit_code, NoteError, EXIT_GENERAL_FAILURE, EXIT_WRITE_FAILURE};
use baan::init::{
    init_start, finish, temp_path_of, InitAction, InitEvent, InitOutcome, NoteInit,
};

type SimFs = HashMap<Vec<u8>, Vec<u8>>;

/// Drive one initialization run against a simulated filesystem, performing
/// each requested action faithfully; `fail_write` simulates a write failure.
fn run_init(
    fs: &mut SimFs,
    target: &[u8],
    content: &[u8],
    fail_write: bool,
) -> (NoteInit, Vec<InitAction>) {
    let (mut m, mut action) = init_start(target.to_vec(), content.to_vec());
    let temp = temp_path_of(&target.to_vec());
    let mut actions = vec![action];
    loop {
        let ev = match action {
            InitAction::CheckTarget => InitEvent::TargetExists(fs.contains_key(target)),
            InitAction::CreateTemp => {
                if fs.contains_key(&temp) {
                    InitEvent::TempCreated(false)
                } else {
                    fs.insert(temp.clone(), Vec::new());
                    InitEvent::TempCreated(true)
                }
            }
            InitAction::WriteTemp => {
                if fail_write {
                    fs.insert(temp.clone(), b"partial garbage".to_vec());
                    InitEvent::WriteDone(false)
                } else {
                    fs.insert(temp.clone(), content.to_vec());
                    InitEvent::WriteDone(true)
                }
            }
            InitAction::RenameTemp => {
                let data = fs.remove(&temp).expect("temp file present for rename");
                fs.insert(target.to_vec(), data);
                InitEvent::RenameDone(true)
            }
            InitAction::RemoveTemp => {
                fs.remove(&temp);
                InitEvent::TempRemoved
            }
            InitAction::Stop => break,
        };
        action = m.step(ev);
        actions.push(action);
    }
    (m, actions)
}

#[test]
fn test_temp_name_keeps_stem() {
    assert_eq!(temp_path_of(&b"/n/p/feature-x.md".to_vec()), b"/n/p/feature-x.tmp".to_vec());
    assert_eq!(temp_path_of(&b"noext".to_vec()), b"noext.tmp".to_vec());
}

#[test]
fn test_init_creates_once() {
    let mut fs = SimFs::new();
    let (m, actions) = run_init(&mut fs, b"/n/braindump.md", b"# braindump\n- [ ]\n", false);
    assert_eq!(m.outcome, Some(Ok(InitOutcome::Created)));
    assert_eq!(
        actions,
        vec![
            InitAction::CheckTarget,
            InitAction::CreateTemp,
            InitAction::WriteTemp,
            InitAction::RenameTemp,
            InitAction::Stop,
        ]
    );
    assert_eq!(fs.get(&b"/n/braindump.md".to_vec()), Some(&b"# braindump\n- [ ]\n".to_vec()));
    assert!(!fs.contains_key(&b"/n/braindump.tmp".to_vec()));
    let t = finish(m).unwrap();
    assert_eq!(t.path, b"/n/braindump.md".to_vec());
    assert!(!t.already_exists);
}

#[test]
fn test_init_second_run_already_exists() {
    // Idempotence: the second run reports the pre-existing file and touches
    // nothing, never overwriting its content.
    let mut fs = SimFs::new();
    let (_, _) = run_init(&mut fs, b"/n/daily/07-03-25.md", b"first", false);
    fs.insert(b"/n/daily/07-03-25.md".to_vec(), b"edited since".to_vec());
    let before = fs.clone();
    let (m, actions) = run_init(&mut fs, b"/n/daily/07-03-25.md", b"second", false);
    assert_eq!(m.outcome, Some(Ok(InitOutcome::AlreadyExists)));
    assert_eq!(actions, vec![InitAction::CheckTarget, InitAction::Stop]);
    assert_eq!(fs, before);
    let t = finish(m).unwrap();
    assert!(t.already_exists);
    assert_eq!(t.path, b"/n/daily/07-03-25.md".to_vec());
}

#[test]
fn test_init_write_failure_leaves_nothing() {
    // Atomicity: a failed write leaves no file at either name, and the run
    // ends in the write-failure error with the reserved exit status.
    let mut fs = SimFs::new();
    fs.insert(b"/n/other.md".to_vec(), b"untouched".to_vec());
    let before = fs.clone();
    let (m, actions) = run_init(&mut fs, b"/n/new.md", b"content", true);
    assert_eq!(m.outcome, Some(Err(NoteError::WriteFailure)));
    assert_eq!(
        actions,
        vec![
            InitAction::CheckTarget,
            InitAction::CreateTemp,
            InitAction::WriteTemp,
            InitAction::RemoveTemp,
            InitAction::Stop,
        ]
    );
    assert!(!fs.contains_key(&b"/n/new.md".to_vec()));
    assert!(!fs.contains_key(&b"/n/new.tmp".to_vec()));
    assert_eq!(fs, before);
    assert!(finish(m).is_none());
}

#[test]
fn test_init_temp_busy_is_benign() {
    let mut fs = SimFs::new();
    fs.insert(b"/n/new.tmp".to_vec(), Vec::new());
    let before = fs.clone();
    let (m, _) = run_init(&mut fs, b"/n/new.md", b"content", false);
    assert_eq!(m.outcome, Some(Ok(InitOutcome::TempBusy)));
    assert_eq!(fs, before);
    assert!(finish(m).unwrap().already_exists);
}

#[test]
fn test_exit_codes() {
    assert_eq!(exit_code(&NoteError::WriteFailure), EXIT_WRITE_FAILURE);
    assert_eq!(EXIT_WRITE_FAILURE, 74);
    for e in [
        NoteError::HomeDirectoryMissing,
        NoteError::ScanDepthExceeded,
        NoteError::OrphanMarkerPath,
        NoteError::GitHeadUnreadable,
        NoteError::EditorUnset,
        NoteError::RenameFailure,
    ] {
        assert_eq!(exit_code(&e), EXIT_GENERAL_FAILURE);
        assert_ne!(exit_code(&e), EXIT_WRITE_FAILURE);
    }
}

fn base_request() -> RunRequest {
    RunRequest {
        cmd: Cmd::Open,
        config_editor: Some("nvim".to_string()),
        env_editor: Some("vi".to_string()),
        home: b"/home/u/notes".to_vec(),
        home_exists: true,
        main_exists: true,
        today: Date { year: 2025, month: 3, day: 7 },
    }
}

#[test]
fn test_engine_open_existing_main() {
    let plan = Engine::run(base_request()).unwrap();
    assert_eq!(plan.editor, "nvim".to_string());
    assert_eq!(plan.main_path, b"/home/u/notes/main.md".to_vec());
    assert_eq!(plan.archive_to, None);
    assert!(!plan.create_main);
}

#[test]
fn test_engine_open_creates_missing_main() {
    let mut req = base_request();
    req.main_exists = false;
    let plan = Engine::run(req).unwrap();
    assert!(plan.create_main);
    assert_eq!(plan.archive_to, None);
}

#[test]
fn test_engine_new_archives_under_date_stamp() {
    let mut req = base_request();
    req.cmd = Cmd::New;
    let plan = Engine::run(req).unwrap();
    assert!(plan.create_main);
    assert_eq!(
        plan.archive_to,
        Some(b"/home/u/notes/main-2025-03-07.archive.md".to_vec())
    );
}

#[test]
fn test_engine_new_without_main_does_not_archive() {
    let mut req = base_request();
    req.cmd = Cmd::New;
    req.main_exists = false;
    let plan = Engine::run(req).unwrap();
    assert!(plan.create_main);
    assert_eq!(plan.archive_to, None);
}

#[test]
fn test_engine_editor_fallback_to_environment() {
    let mut req = base_request();
    req.config_editor = None;
    let plan = Engine::run(req).unwrap();
    assert_eq!(plan.editor, "vi".to_string());
}

#[test]
fn test_engine_no_editor_anywhere_fails() {
    let mut req = base_request();
    req.config_editor = None;
    req.env_editor = None;
    assert_eq!(Engine::run(req).unwrap_err(), NoteError::EditorUnset);
}

#[test]
fn test_engine_missing_home_is_fatal() {
    let mut req = base_request();
    req.home_exists = false;
    assert_eq!(Engine::run(req).unwrap_err(), NoteError::HomeDirectoryMissing);
}

#[test]
fn test_archive_name_stamp() {
    let d = Date { year: 2025, month: 12, day: 31 };
    assert_eq!(archive_name(&d), b"main-2025-12-31.archive.md".to_vec());
}

#[test]
fn test_default_command_is_open() {
    assert_eq!(Cmd::default(), Cmd::Open);
}

#[test]
fn test_render_template_exact() {
    let tmpl = Template { root_headers: vec!["TODO".to_string(), "NOTES".to_string()] };
    assert_eq!(
        render_template(tmpl),
        "# TODO\n---\n\n\n\n\n# NOTES\n---\n\n\n\n\n".to_string()
    );
}

#[test]
fn test_render_template_empty() {
    let tmpl = Template { root_headers: Vec::new() };
    assert_eq!(render_template(tmpl), String::new());
}
