use modifier_release::{
    execution_failure, judge_outcome, Action, AttemptError, Invocation, ModifierRelease,
    ReleaseError, RunOutcome, Tool,
};

fn strings(v: &[&str]) -> Vec<String> {
    v.iter().map(|s| s.to_string()).collect()
}

fn missing() -> RunOutcome {
    RunOutcome::SpawnFailed { reason: "No such file or directory (os error 2)".to_string() }
}

fn exited(success: bool, stderr: &[u8]) -> RunOutcome {
    RunOutcome::Exited { success, stderr: stderr.to_vec() }
}

fn expect_run(a: Action) -> Invocation {
    match a {
        Action::Run(inv) => inv,
        other => panic!("expected a run, got {:?}", other),
    }
}

fn expect_done(a: Action) -> Result<Tool, ReleaseError> {
    match a {
        Action::Done(r) => r,
        other => panic!("expected a result, got {:?}", other),
    }
}

#[test]
fn wtype_arguments_are_exact() {
    assert_eq!(
        Tool::Wtype.release_args(),
        strings(&["-m", "shift", "-m", "ctrl", "-m", "logo", "-m", "alt", "-m", "altgr"])
    );
}

#[test]
fn ydotool_arguments_are_exact() {
    assert_eq!(
        Tool::Ydotool.release_args(),
        strings(&["key", "42:0", "54:0", "29:0", "97:0", "56:0", "100:0", "125:0", "126:0"])
    );
}

#[test]
fn tool_names() {
    assert_eq!(Tool::Wtype.name(), "wtype");
    assert_eq!(Tool::Ydotool.name(), "ydotool");
}

#[test]
fn start_runs_wtype_first() {
    let (m, inv) = ModifierRelease::start();
    assert!(!m.is_finished());
    assert_eq!(inv.tool, Tool::Wtype);
    assert_eq!(inv.args, Tool::Wtype.release_args());
}

#[test]
fn wtype_success_skips_ydotool() {
    let (mut m, _) = ModifierRelease::start();
    let r = expect_done(m.on_outcome(exited(true, b"")));
    assert!(matches!(r, Ok(Tool::Wtype)));
    assert!(m.is_finished());
}

#[test]
fn wtype_missing_ydotool_succeeds() {
    let (mut m, _) = ModifierRelease::start();
    let inv = expect_run(m.on_outcome(missing()));
    assert_eq!(inv.tool, Tool::Ydotool);
    assert_eq!(inv.args, Tool::Ydotool.release_args());
    assert!(!m.is_finished());
    let r = expect_done(m.on_outcome(exited(true, b"")));
    assert!(matches!(r, Ok(Tool::Ydotool)));
    assert!(m.is_finished());
}

#[test]
fn wtype_permission_denied_tries_ydotool() {
    let (mut m, _) = ModifierRelease::start();
    let inv = expect_run(m.on_outcome(exited(false, b"permission denied")));
    assert_eq!(inv.tool, Tool::Ydotool);
    let r = expect_done(m.on_outcome(exited(false, b"failed to connect socket")));
    let e = r.unwrap_err();
    assert_eq!(e.wtype.message(), "wtype error: permission denied");
    assert_eq!(e.ydotool.message(), "ydotool error: failed to connect socket");
}

#[test]
fn both_tools_missing_names_both() {
    let (mut m, _) = ModifierRelease::start();
    expect_run(m.on_outcome(missing()));
    let e = expect_done(m.on_outcome(missing())).unwrap_err();
    let text = e.message();
    assert_eq!(text, "No tool available to release modifiers (tried wtype, ydotool)");
    assert!(text.contains("wtype"));
    assert!(text.contains("ydotool"));
    assert_eq!(e.wtype.message(), "wtype failed: No such file or directory (os error 2)");
    assert_eq!(e.ydotool.message(), "ydotool failed: No such file or directory (os error 2)");
}

#[test]
fn judge_success() {
    assert!(judge_outcome(Tool::Wtype, exited(true, b"ignored")).is_ok());
}

#[test]
fn judge_spawn_failure() {
    match judge_outcome(Tool::Ydotool, missing()) {
        Err(AttemptError::SpawnFailure { tool, reason }) => {
            assert_eq!(tool, Tool::Ydotool);
            assert_eq!(reason, "No such file or directory (os error 2)");
        }
        other => panic!("unexpected {:?}", other),
    }
}

#[test]
fn judge_decodes_stderr_lossily() {
    match judge_outcome(Tool::Wtype, exited(false, b"bad \xff byte")) {
        Err(AttemptError::ExecutionFailure { tool, stderr }) => {
            assert_eq!(tool, Tool::Wtype);
            assert_eq!(stderr, "bad \u{FFFD} byte");
        }
        other => panic!("unexpected {:?}", other),
    }
}

#[test]
fn judge_failure_with_empty_stderr() {
    let e = judge_outcome(Tool::Ydotool, exited(false, b"")).unwrap_err();
    assert_eq!(e.message(), "ydotool error: ");
}

#[test]
fn execution_failure_keeps_text() {
    let e = execution_failure(Tool::Wtype, "compositor does not support virtual keyboard".to_string());
    assert_eq!(e.message(), "wtype error: compositor does not support virtual keyboard");
}
