use ack_shim::registrar::registrar_start;
use ack_shim::registrar::registrar_step;
use ack_shim::registrar::RegAction;
use ack_shim::registrar::RegEvent;
use ack_shim::registrar::RegState;

const APPDATA: &str = "C:\\Users\\u\\AppData\\Roaming";
const STARTUP_DIR: &str =
    "C:\\Users\\u\\AppData\\Roaming\\Microsoft\\Windows\\Start Menu\\Programs\\Startup";
const SCRIPT_PATH: &str = "C:\\Users\\u\\AppData\\Roaming\\Microsoft\\Windows\\Start Menu\\Programs\\Startup\\AcknowledgementAppStartup.cmd";
const EXE: &str = "C:\\Program Files\\App\\app.exe";

/// Drives a full fresh-install run and returns the written path and content.
fn run_fresh() -> (String, String) {
    let (state, action) = registrar_start();
    assert!(matches!(state, RegState::Start));
    assert!(matches!(action, RegAction::ReadEnvVar));

    let (state, action) = registrar_step(
        state,
        RegEvent::EnvVar {
            outcome: Ok(APPDATA.to_string()),
        },
        "\\",
    );
    match &action {
        RegAction::CreateDir { path } => assert_eq!(path, STARTUP_DIR),
        other => panic!("expected a directory creation, got {:?}", variant_name(other)),
    }

    let (state, action) = registrar_step(state, RegEvent::DirCreated { outcome: Ok(()) }, "\\");
    assert!(matches!(action, RegAction::ResolveExe));

    let (state, action) = registrar_step(
        state,
        RegEvent::ExeResolved {
            outcome: Ok(EXE.to_string()),
        },
        "\\",
    );
    match &action {
        RegAction::CheckExists { path } => assert_eq!(path, SCRIPT_PATH),
        other => panic!("expected an existence check, got {:?}", variant_name(other)),
    }

    let (state, action) = registrar_step(state, RegEvent::ScriptExists { exists: false }, "\\");
    let (written_path, written_content) = match action {
        RegAction::WriteFile { path, content } => (path, content),
        other => panic!("expected a write, got {:?}", variant_name(&other)),
    };

    let (state, action) = registrar_step(state, RegEvent::ScriptWritten { outcome: Ok(()) }, "\\");
    assert!(matches!(state, RegState::Done { created: true }));
    assert!(matches!(action, RegAction::Stop));

    (written_path, written_content)
}

fn variant_name(a: &RegAction) -> &'static str {
    match a {
        RegAction::ReadEnvVar => "ReadEnvVar",
        RegAction::CreateDir { .. } => "CreateDir",
        RegAction::ResolveExe => "ResolveExe",
        RegAction::CheckExists { .. } => "CheckExists",
        RegAction::WriteFile { .. } => "WriteFile",
        RegAction::Stop => "Stop",
    }
}

#[test]
fn fresh_install_writes_script_with_expected_content() {
    let (path, content) = run_fresh();
    assert_eq!(path, SCRIPT_PATH);
    assert_eq!(
        content,
        "@echo off\r\nstart \"\" \"C:\\Program Files\\App\\app.exe\"\r\n"
    );
}

#[test]
fn second_run_is_a_no_op() {
    // First run wrote the script; now every existence check answers "present".
    let (state, _) = registrar_start();
    let (state, _) = registrar_step(
        state,
        RegEvent::EnvVar {
            outcome: Ok(APPDATA.to_string()),
        },
        "\\",
    );
    let (state, _) = registrar_step(state, RegEvent::DirCreated { outcome: Ok(()) }, "\\");
    let (state, _) = registrar_step(
        state,
        RegEvent::ExeResolved {
            outcome: Ok(EXE.to_string()),
        },
        "\\",
    );
    let (state, action) = registrar_step(state, RegEvent::ScriptExists { exists: true }, "\\");
    assert!(matches!(state, RegState::Done { created: false }));
    assert!(matches!(action, RegAction::Stop));
}

#[test]
fn absent_environment_variable_fails_without_creating_anything() {
    let (state, _) = registrar_start();
    let (state, action) = registrar_step(
        state,
        RegEvent::EnvVar {
            outcome: Err("environment variable not found".to_string()),
        },
        "\\",
    );
    assert!(matches!(action, RegAction::Stop));
    match state {
        RegState::Failed { error } => {
            assert!(error.is_environment());
            assert_eq!(error.message(), "environment variable not found");
        }
        _ => panic!("expected a failure"),
    }
}

#[test]
fn directory_creation_failure_is_a_filesystem_error() {
    let (state, _) = registrar_start();
    let (state, _) = registrar_step(
        state,
        RegEvent::EnvVar {
            outcome: Ok(APPDATA.to_string()),
        },
        "\\",
    );
    let (state, action) = registrar_step(
        state,
        RegEvent::DirCreated {
            outcome: Err("permission denied".to_string()),
        },
        "\\",
    );
    assert!(matches!(action, RegAction::Stop));
    match state {
        RegState::Failed { error } => assert!(error.is_filesystem()),
        _ => panic!("expected a failure"),
    }
}

#[test]
fn executable_resolution_failure_is_a_resolution_error() {
    let (state, _) = registrar_start();
    let (state, _) = registrar_step(
        state,
        RegEvent::EnvVar {
            outcome: Ok(APPDATA.to_string()),
        },
        "\\",
    );
    let (state, _) = registrar_step(state, RegEvent::DirCreated { outcome: Ok(()) }, "\\");
    let (state, action) = registrar_step(
        state,
        RegEvent::ExeResolved {
            outcome: Err("no current binary".to_string()),
        },
        "\\",
    );
    assert!(matches!(action, RegAction::Stop));
    match state {
        RegState::Failed { error } => assert!(error.is_resolution()),
        _ => panic!("expected a failure"),
    }
}

#[test]
fn write_failure_is_a_filesystem_error() {
    let (state, _) = registrar_start();
    let (state, _) = registrar_step(
        state,
        RegEvent::EnvVar {
            outcome: Ok(APPDATA.to_string()),
        },
        "\\",
    );
    let (state, _) = registrar_step(state, RegEvent::DirCreated { outcome: Ok(()) }, "\\");
    let (state, _) = registrar_step(
        state,
        RegEvent::ExeResolved {
            outcome: Ok(EXE.to_string()),
        },
        "\\",
    );
    let (state, _) = registrar_step(state, RegEvent::ScriptExists { exists: false }, "\\");
    let (state, action) = registrar_step(
        state,
        RegEvent::ScriptWritten {
            outcome: Err("disk full".to_string()),
        },
        "\\",
    );
    assert!(matches!(action, RegAction::Stop));
    match state {
        RegState::Failed { error } => assert!(error.is_filesystem()),
        _ => panic!("expected a failure"),
    }
}
