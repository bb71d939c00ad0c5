use ack_shim::logger::logger_start;
use ack_shim::logger::logger_step;
use ack_shim::logger::LogAction;
use ack_shim::logger::LogEvent;
use ack_shim::logger::LogState;

const DATA_DIR: &str = "C:\\Users\\u\\AppData\\Roaming\\AckApp";
const LOG_PATH: &str = "C:\\Users\\u\\AppData\\Roaming\\AckApp\\acknowledgements.log";

/// Drives one successful acknowledgement and returns the appended line.
fn run_once(ms: u128) -> (String, String) {
    let (state, action) = logger_start();
    assert!(matches!(state, LogState::Start));
    assert!(matches!(action, LogAction::ResolveDataDir));

    let (state, action) = logger_step(
        state,
        LogEvent::DataDir {
            outcome: Ok(DATA_DIR.to_string()),
        },
        "\\",
    );
    match &action {
        LogAction::CreateDir { path } => assert_eq!(path, DATA_DIR),
        _ => panic!("expected a directory creation"),
    }

    let (state, action) = logger_step(state, LogEvent::DirCreated { outcome: Ok(()) }, "\\");
    assert!(matches!(action, LogAction::ReadClock));

    let (state, action) = logger_step(state, LogEvent::ClockRead { outcome: Ok(ms) }, "\\");
    let (path, line) = match action {
        LogAction::AppendLine { path, line } => (path, line),
        _ => panic!("expected an append"),
    };

    let (state, action) = logger_step(state, LogEvent::Appended { outcome: Ok(()) }, "\\");
    assert!(matches!(state, LogState::Done));
    assert!(matches!(action, LogAction::Stop));

    (path, line)
}

#[test]
fn one_acknowledgement_appends_one_record() {
    let (path, line) = run_once(1234);
    assert_eq!(path, LOG_PATH);
    assert_eq!(line, "acknowledged_at_ms=1234\n");
}

#[test]
fn three_acknowledgements_append_three_increasing_lines() {
    // Fresh install: the log does not exist, so it starts empty.
    let mut file = String::new();
    let stamps: [u128; 3] = [1700000000001, 1700000000502, 1700000001003];
    for ms in stamps {
        let (_, line) = run_once(ms);
        // The append action never truncates: the line lands at the end.
        file.push_str(&line);
    }
    assert_eq!(
        file,
        "acknowledged_at_ms=1700000000001\nacknowledged_at_ms=1700000000502\nacknowledged_at_ms=1700000001003\n"
    );
    let lines: Vec<&str> = file.lines().collect();
    assert_eq!(lines.len(), 3);
    let mut previous: u128 = 0;
    for line in lines {
        assert!(line.starts_with("acknowledged_at_ms="));
        let digits = &line["acknowledged_at_ms=".len()..];
        assert!(!digits.is_empty());
        assert!(digits.bytes().all(|b| b.is_ascii_digit()));
        let value: u128 = digits.parse().unwrap();
        assert!(value >= previous);
        previous = value;
    }
}

#[test]
fn repeated_calls_keep_prior_lines_unchanged() {
    let (_, first) = run_once(1);
    let mut file = first.clone();
    let (_, second) = run_once(2);
    file.push_str(&second);
    assert!(file.starts_with(&first));
    assert_eq!(file, "acknowledged_at_ms=1\nacknowledged_at_ms=2\n");
}

#[test]
fn data_dir_resolution_failure_is_a_resolution_error() {
    let (state, _) = logger_start();
    let (state, action) = logger_step(
        state,
        LogEvent::DataDir {
            outcome: Err("unknown application data directory".to_string()),
        },
        "\\",
    );
    assert!(matches!(action, LogAction::Stop));
    match state {
        LogState::Failed { error } => assert!(error.is_resolution()),
        _ => panic!("expected a failure"),
    }
}

#[test]
fn directory_creation_failure_leaves_no_log_file() {
    let (state, _) = logger_start();
    let (state, _) = logger_step(
        state,
        LogEvent::DataDir {
            outcome: Ok(DATA_DIR.to_string()),
        },
        "\\",
    );
    let (state, action) = logger_step(
        state,
        LogEvent::DirCreated {
            outcome: Err("permission denied".to_string()),
        },
        "\\",
    );
    // The run stops before any append, so the log file is never created.
    assert!(matches!(action, LogAction::Stop));
    match state {
        LogState::Failed { error } => {
            assert!(error.is_filesystem());
            assert_eq!(error.message(), "permission denied");
        }
        _ => panic!("expected a failure"),
    }
}

#[test]
fn clock_before_epoch_is_a_clock_error() {
    let (state, _) = logger_start();
    let (state, _) = logger_step(
        state,
        LogEvent::DataDir {
            outcome: Ok(DATA_DIR.to_string()),
        },
        "\\",
    );
    let (state, _) = logger_step(state, LogEvent::DirCreated { outcome: Ok(()) }, "\\");
    let (state, action) = logger_step(
        state,
        LogEvent::ClockRead {
            outcome: Err("system time is before the Unix epoch".to_string()),
        },
        "\\",
    );
    assert!(matches!(action, LogAction::Stop));
    match state {
        LogState::Failed { error } => assert!(error.is_clock()),
        _ => panic!("expected a failure"),
    }
}

#[test]
fn append_failure_is_a_filesystem_error() {
    let (state, _) = logger_start();
    let (state, _) = logger_step(
        state,
        LogEvent::DataDir {
            outcome: Ok(DATA_DIR.to_string()),
        },
        "\\",
    );
    let (state, _) = logger_step(state, LogEvent::DirCreated { outcome: Ok(()) }, "\\");
    let (state, _) = logger_step(state, LogEvent::ClockRead { outcome: Ok(5) }, "\\");
    let (state, action) = logger_step(
        state,
        LogEvent::Appended {
            outcome: Err("disk full".to_string()),
        },
        "\\",
    );
    assert!(matches!(action, LogAction::Stop));
    match state {
        LogState::Failed { error } => assert!(error.is_filesystem()),
        _ => panic!("expected a failure"),
    }
}

#[test]
fn record_for_zero_timestamp() {
    let (_, line) = run_once(0);
    assert_eq!(line, "acknowledged_at_ms=0\n");
}
