use scaffold_dispatch::dispatch::{command_for_framework, interpret_spawn, SpawnOutcome};
use scaffold_dispatch::errors::ErrorKind;

#[test]
fn command_for_next() {
    let r = command_for_framework("Next");
    assert_eq!(r.unwrap(), "npx create-next-app@latest my-next-project");
}

#[test]
fn command_for_react() {
    let r = command_for_framework("React");
    assert_eq!(r.unwrap(), "npx create-react-app my-react-app");
}

#[test]
fn command_for_angular() {
    let r = command_for_framework("Angular");
    assert_eq!(r.unwrap(), "npx @angular/cli new my-angular-app");
}

#[test]
fn command_for_html() {
    let r = command_for_framework("HTML");
    assert_eq!(r.unwrap(), "mkdir my-html-project && touch index.html");
}

#[test]
fn unknown_framework_is_rejected() {
    let r = command_for_framework("Vue");
    assert!(matches!(r, Err(ErrorKind::UnsupportedFramework)));
    assert_eq!(r.unwrap_err().message(), "Framework not supported");
}

#[test]
fn empty_framework_is_rejected() {
    let r = command_for_framework("");
    assert!(matches!(r, Err(ErrorKind::UnsupportedFramework)));
}

#[test]
fn lookup_is_case_sensitive() {
    let r = command_for_framework("react");
    assert!(matches!(r, Err(ErrorKind::UnsupportedFramework)));
}

#[test]
fn zero_exit_returns_captured_stdout() {
    let out = SpawnOutcome::Spawned { success: true, code: Some(0), stdout: vec![b'o', b'k'] };
    assert_eq!(interpret_spawn(out).unwrap(), "ok");
}

#[test]
fn zero_exit_with_empty_stdout_returns_empty_text() {
    let out = SpawnOutcome::Spawned { success: true, code: Some(0), stdout: vec![] };
    assert_eq!(interpret_spawn(out).unwrap(), "");
}

#[test]
fn invalid_utf8_is_decoded_lossily() {
    let out = SpawnOutcome::Spawned { success: true, code: Some(0), stdout: vec![0xff, b'o', b'k'] };
    assert_eq!(interpret_spawn(out).unwrap(), "\u{FFFD}ok");
}

#[test]
fn nonzero_exit_fails_with_the_status_and_discards_stdout() {
    let out = SpawnOutcome::Spawned {
        success: false,
        code: Some(2),
        stdout: vec![b'p', b'a', b'r', b't'],
    };
    let r = interpret_spawn(out);
    assert!(matches!(r, Err(ErrorKind::CommandFailed(Some(2)))));
    assert_eq!(r.unwrap_err().message(), "Command failed with status: 2");
}

#[test]
fn nonzero_exit_without_a_code_reports_unknown() {
    let out = SpawnOutcome::Spawned { success: false, code: None, stdout: vec![] };
    let r = interpret_spawn(out);
    assert!(matches!(r, Err(ErrorKind::CommandFailed(None))));
    assert_eq!(r.unwrap_err().message(), "Command failed with status: unknown");
}

#[test]
fn spawn_failure_carries_the_os_error() {
    let out = SpawnOutcome::Failed { os_error: "No such file or directory".to_string() };
    let r = interpret_spawn(out);
    match r {
        Err(ErrorKind::SpawnError(m)) => assert_eq!(m, "No such file or directory"),
        _ => panic!("expected a spawn error"),
    }
}

#[test]
fn stub_shell_scenario() {
    // A stub shell that echoes "ok" and exits zero: the React command is
    // selected, the spawn is recorded, and the captured text comes back.
    let mut spawned: Vec<String> = Vec::new();
    let command = command_for_framework("React").unwrap();
    spawned.push(command.clone());
    let out = SpawnOutcome::Spawned { success: true, code: Some(0), stdout: vec![b'o', b'k'] };
    assert_eq!(interpret_spawn(out).unwrap(), "ok");
    assert_eq!(spawned, vec!["npx create-react-app my-react-app".to_string()]);

    // An unsupported tag fails before anything is handed to the shell.
    let mut spawns: usize = 0;
    let r = command_for_framework("Vue");
    if let Ok(cmd) = r {
        spawns += 1;
        let _ = cmd;
    } else {
        assert_eq!(r.unwrap_err().message(), "Framework not supported");
    }
    assert_eq!(spawns, 0);
}
