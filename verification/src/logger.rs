//! The acknowledgement logger, as a step machine.
//!
//! One acknowledgement is a linear sequence of fallible outside steps:
//! resolve the application-data directory, create it if absent, read the
//! clock, and append one record line to the log file. The decisions between
//! those steps live here: `logger_step` takes the current state and the
//! outcome of the last outside step, and returns the next state together
//! with the next thing the surrounding process must do.
//!
//! The run-level lemmas at the bottom establish the logger's guarantees: a
//! run appends at most one line, every appended line is a well-formed
//! record, a finished run appended exactly one, and a run whose directory
//! cannot be created fails with a filesystem error without the log file
//! ever being opened or created.

use crate::ack_log::ack_record;
use crate::ack_log::ack_record_shape;
use crate::ack_log::ack_record_spec;
use crate::ack_log::lemma_ack_record_shape;
use crate::ack_log::log_file_name;
use crate::ack_log::log_file_name_spec;
use crate::errors::ShimError;
use crate::errors::ShimErrorModel;
use vstd::prelude::*;

verus! {

/// The full path of the log file inside the given data directory.
pub open spec fn log_path_spec(data_dir: Seq<char>, sep: Seq<char>) -> Seq<char> {
    data_dir + sep + log_file_name_spec()
}

/// The full path of the log file inside the given data directory.
pub fn log_path(data_dir: &str, sep: &str) -> (r: String)
    ensures
        r@ == log_path_spec(data_dir@, sep@),
{
    let mut s = String::from_str(data_dir);
    s.append(sep);
    s.append(log_file_name());
    proof {
        assert(s@ =~= log_path_spec(data_dir@, sep@));
    }
    s
}

/// The phase the logger is in, between two outside steps.
pub enum LogState {
    /// Nothing has happened yet; the data directory is being resolved.
    Start,
    /// The data directory path is known; the directory is being created.
    EnsuringDir { data_dir: String },
    /// The directory exists; the clock is being read.
    ReadingClock { data_dir: String },
    /// The record is built; it is being appended to the log file.
    Appending { log_path: String, record: String },
    /// The acknowledgement was recorded.
    Done,
    /// A step failed; the acknowledgement was not recorded.
    Failed { error: ShimError },
}

/// The outcome of one outside step, reported back to the machine.
pub enum LogEvent {
    /// The resolved application-data directory, or the failure message.
    DataDir { outcome: Result<String, String> },
    /// The outcome of creating the data directory and its parents.
    DirCreated { outcome: Result<(), String> },
    /// The clock reading in milliseconds since the epoch, or the failure
    /// message when the clock stands before the epoch.
    ClockRead { outcome: Result<u128, String> },
    /// The outcome of appending the record to the log file.
    Appended { outcome: Result<(), String> },
}

/// What the surrounding process must do next.
pub enum LogAction {
    /// Resolve the application-data directory.
    ResolveDataDir,
    /// Create this directory, with its parents, if absent.
    CreateDir { path: String },
    /// Read the clock as milliseconds since the epoch.
    ReadClock,
    /// Open the file at this path in create-or-append mode and append the
    /// line; never truncate.
    AppendLine { path: String, line: String },
    /// Nothing: the run is over.
    Stop,
}

/// The mathematical shape of a `LogState`.
pub enum LogStateModel {
    Start,
    EnsuringDir { data_dir: Seq<char> },
    ReadingClock { data_dir: Seq<char> },
    Appending { log_path: Seq<char>, record: Seq<char> },
    Done,
    Failed { error: ShimErrorModel },
}

/// The mathematical shape of a `LogEvent`.
pub enum LogEventModel {
    DataDir { outcome: Result<Seq<char>, Seq<char>> },
    DirCreated { outcome: Result<(), Seq<char>> },
    ClockRead { outcome: Result<int, Seq<char>> },
    Appended { outcome: Result<(), Seq<char>> },
}

/// The mathematical shape of a `LogAction`.
pub enum LogActionModel {
    ResolveDataDir,
    CreateDir { path: Seq<char> },
    ReadClock,
    AppendLine { path: Seq<char>, line: Seq<char> },
    Stop,
}

impl View for LogState {
    type V = LogStateModel;

    open spec fn view(&self) -> LogStateModel {
        match self {
            LogState::Start => LogStateModel::Start,
            LogState::EnsuringDir { data_dir } => (LogStateModel::EnsuringDir {
                data_dir: data_dir@,
            }),
            LogState::ReadingClock { data_dir } => (LogStateModel::ReadingClock {
                data_dir: data_dir@,
            }),
            LogState::Appending { log_path, record } => (LogStateModel::Appending {
                log_path: log_path@,
                record: record@,
            }),
            LogState::Done => LogStateModel::Done,
            LogState::Failed { error } => (LogStateModel::Failed { error: error@ }),
        }
    }
}

impl View for LogEvent {
    type V = LogEventModel;

    open spec fn view(&self) -> LogEventModel {
        match self {
            LogEvent::DataDir { outcome } => (LogEventModel::DataDir {
                outcome: match outcome {
                    Ok(v) => Ok(v@),
                    Err(m) => Err(m@),
                },
            }),
            LogEvent::DirCreated { outcome } => (LogEventModel::DirCreated {
                outcome: match outcome {
                    Ok(_) => Ok(()),
                    Err(m) => Err(m@),
                },
            }),
            LogEvent::ClockRead { outcome } => (LogEventModel::ClockRead {
                outcome: match outcome {
                    Ok(ms) => Ok(*ms as int),
                    Err(m) => Err(m@),
                },
            }),
            LogEvent::Appended { outcome } => (LogEventModel::Appended {
                outcome: match outcome {
                    Ok(_) => Ok(()),
                    Err(m) => Err(m@),
                },
            }),
        }
    }
}

impl View for LogAction {
    type V = LogActionModel;

    open spec fn view(&self) -> LogActionModel {
        match self {
            LogAction::ResolveDataDir => LogActionModel::ResolveDataDir,
            LogAction::CreateDir { path } => (LogActionModel::CreateDir { path: path@ }),
            LogAction::ReadClock => LogActionModel::ReadClock,
            LogAction::AppendLine { path, line } => (LogActionModel::AppendLine {
                path: path@,
                line: line@,
            }),
            LogAction::Stop => LogActionModel::Stop,
        }
    }
}

/// One decision of the logger: from the current state and the outcome of
/// the last outside step to the next state and the next outside step. An
/// event that does not answer the pending step leaves the state unchanged
/// and stops.
pub open spec fn log_step_spec(s: LogStateModel, e: LogEventModel, sep: Seq<char>) -> (
    LogStateModel,
    LogActionModel,
) {
    match (s, e) {
        (LogStateModel::Start, LogEventModel::DataDir { outcome }) => match outcome {
            Ok(dir) => (
                LogStateModel::EnsuringDir { data_dir: dir },
                LogActionModel::CreateDir { path: dir },
            ),
            Err(m) => (
                LogStateModel::Failed { error: ShimErrorModel::Resolution(m) },
                LogActionModel::Stop,
            ),
        },
        (LogStateModel::EnsuringDir { data_dir }, LogEventModel::DirCreated { outcome }) => match outcome {
            Ok(_) => (LogStateModel::ReadingClock { data_dir }, LogActionModel::ReadClock),
            Err(m) => (
                LogStateModel::Failed { error: ShimErrorModel::Filesystem(m) },
                LogActionModel::Stop,
            ),
        },
        (LogStateModel::ReadingClock { data_dir }, LogEventModel::ClockRead { outcome }) => match outcome {
            Ok(ms) => {
                let p = log_path_spec(data_dir, sep);
                let line = ack_record_spec(ms);
                (
                    LogStateModel::Appending { log_path: p, record: line },
                    LogActionModel::AppendLine { path: p, line },
                )
            },
            Err(m) => (
                LogStateModel::Failed { error: ShimErrorModel::Clock(m) },
                LogActionModel::Stop,
            ),
        },
        (LogStateModel::Appending { .. }, LogEventModel::Appended { outcome }) => match outcome {
            Ok(_) => (LogStateModel::Done, LogActionModel::Stop),
            Err(m) => (
                LogStateModel::Failed { error: ShimErrorModel::Filesystem(m) },
                LogActionModel::Stop,
            ),
        },
        (other, _) => (other, LogActionModel::Stop),
    }
}

/// The start of a logger run: the initial state, and the first outside step
/// the surrounding process must perform.
pub fn logger_start() -> (r: (LogState, LogAction))
    ensures
        r.0@ == LogStateModel::Start,
        r.1@ == LogActionModel::ResolveDataDir,
{
    (LogState::Start, LogAction::ResolveDataDir)
}

/// One decision of the logger. `sep` is the host's path separator, used to
/// join the log file's path.
pub fn logger_step(state: LogState, event: LogEvent, sep: &str) -> (r: (LogState, LogAction))
    ensures
        (r.0@, r.1@) == log_step_spec(state@, event@, sep@),
{
    match (state, event) {
        (LogState::Start, LogEvent::DataDir { outcome }) => match outcome {
            Ok(dir) => {
                let dir_for_action = dir.clone();
                (
                    LogState::EnsuringDir { data_dir: dir },
                    LogAction::CreateDir { path: dir_for_action },
                )
            },
            Err(m) => (LogState::Failed { error: ShimError::Resolution(m) }, LogAction::Stop),
        },
        (LogState::EnsuringDir { data_dir }, LogEvent::DirCreated { outcome }) => match outcome {
            Ok(_) => (LogState::ReadingClock { data_dir }, LogAction::ReadClock),
            Err(m) => (LogState::Failed { error: ShimError::Filesystem(m) }, LogAction::Stop),
        },
        (LogState::ReadingClock { data_dir }, LogEvent::ClockRead { outcome }) => match outcome {
            Ok(ms) => {
                let p = log_path(data_dir.as_str(), sep);
                let line = ack_record(ms);
                let p_for_action = p.clone();
                let line_for_action = line.clone();
                (
                    LogState::Appending { log_path: p, record: line },
                    LogAction::AppendLine { path: p_for_action, line: line_for_action },
                )
            },
            Err(m) => (LogState::Failed { error: ShimError::Clock(m) }, LogAction::Stop),
        },
        (LogState::Appending { .. }, LogEvent::Appended { outcome }) => match outcome {
            Ok(_) => (LogState::Done, LogAction::Stop),
            Err(m) => (LogState::Failed { error: ShimError::Filesystem(m) }, LogAction::Stop),
        },
        (other, _) => (other, LogAction::Stop),
    }
}

/// The state a run from the start state reaches after the given events.
pub open spec fn log_run_state(events: Seq<LogEventModel>, sep: Seq<char>) -> LogStateModel
    decreases events.len(),
{
    if events.len() == 0 {
        LogStateModel::Start
    } else {
        log_step_spec(log_run_state(events.drop_last(), sep), events.last(), sep).0
    }
}

/// The outside steps a run from the start state asks for, in order.
pub open spec fn log_run_actions(events: Seq<LogEventModel>, sep: Seq<char>) -> Seq<LogActionModel>
    decreases events.len(),
{
    if events.len() == 0 {
        Seq::<LogActionModel>::empty()
    } else {
        log_run_actions(events.drop_last(), sep).push(
            log_step_spec(log_run_state(events.drop_last(), sep), events.last(), sep).1,
        )
    }
}

/// How many of the actions append to the log file.
pub open spec fn count_appends(actions: Seq<LogActionModel>) -> int
    decreases actions.len(),
{
    if actions.len() == 0 {
        0
    } else {
        count_appends(actions.drop_last()) + (if actions.last() is AppendLine {
            1int
        } else {
            0int
        })
    }
}

/// How many of the actions touch the log file at all: only appends do, so a
/// run without appends never creates or opens the file.
pub open spec fn count_file_touches(actions: Seq<LogActionModel>) -> int {
    count_appends(actions)
}

/// Appending one action to a run's action list raises the append count by
/// one exactly when the appended action is an append.
proof fn lemma_append_count_push(actions: Seq<LogActionModel>, a: LogActionModel)
    ensures
        count_appends(actions.push(a)) == count_appends(actions) + (if a is AppendLine {
            1int
        } else {
            0int
        }),
{
    assert(actions.push(a).drop_last() =~= actions);
    assert(actions.push(a).last() == a);
}

/// In any run from the start state, at most one line is appended, and a
/// finished run appended exactly one.
pub proof fn lemma_run_appends_at_most_once(events: Seq<LogEventModel>, sep: Seq<char>)
    ensures
        ({
            let s = log_run_state(events, sep);
            let n = count_appends(log_run_actions(events, sep));
            &&& 0 <= n <= 1
            &&& ((s is Start || s is EnsuringDir || s is ReadingClock) ==> n == 0)
            &&& (s is Appending ==> n == 1)
            &&& (s is Done ==> n == 1)
        }),
    decreases events.len(),
{
    if events.len() > 0 {
        lemma_run_appends_at_most_once(events.drop_last(), sep);
        let prev_state = log_run_state(events.drop_last(), sep);
        let step = log_step_spec(prev_state, events.last(), sep);
        lemma_append_count_push(log_run_actions(events.drop_last(), sep), step.1);
    }
}

/// Every line a run asks to append is a well-formed record: it opens with
/// the key, carries only digits, and ends with its one newline.
pub proof fn lemma_appended_lines_are_records(events: Seq<LogEventModel>, sep: Seq<char>)
    requires
        forall|i: int|
            0 <= i < events.len() ==> ((#[trigger] events[i]) matches LogEventModel::ClockRead {
                outcome,
            } ==> (outcome matches Ok(ms) ==> ms >= 0)),
    ensures
        forall|i: int|
            0 <= i < log_run_actions(events, sep).len()
                ==> ((#[trigger] log_run_actions(events, sep)[i])
                matches LogActionModel::AppendLine { path, line } ==> ack_record_shape(line)),
    decreases events.len(),
{
    if events.len() > 0 {
        lemma_appended_lines_are_records(events.drop_last(), sep);
        let prev_actions = log_run_actions(events.drop_last(), sep);
        let prev_state = log_run_state(events.drop_last(), sep);
        let step = log_step_spec(prev_state, events.last(), sep);
        assert(events[events.len() - 1] matches LogEventModel::ClockRead { outcome } ==> (outcome
            matches Ok(ms) ==> ms >= 0));
        if step.1 matches LogActionModel::AppendLine { path, line } {
            lemma_ack_record_shape(clock_reading_of(events.last()));
        }
        assert(log_run_actions(events, sep) =~= prev_actions.push(step.1));
        assert(forall|i: int|
            0 <= i < prev_actions.len() ==> log_run_actions(events, sep)[i] == prev_actions[i]);
    }
}

/// The clock reading an event carries, where it carries one.
pub open spec fn clock_reading_of(e: LogEventModel) -> int {
    match e {
        LogEventModel::ClockRead { outcome } => match outcome {
            Ok(ms) => ms,
            Err(_) => 0,
        },
        _ => 0,
    }
}

/// A run whose directory creation fails appends nothing, so the log file is
/// never created or opened, and the run fails with a filesystem error.
pub proof fn lemma_dir_failure_no_log_file(
    events: Seq<LogEventModel>,
    sep: Seq<char>,
    d: Seq<char>,
    m: Seq<char>,
)
    requires
        events.len() >= 2,
        events[0] == (LogEventModel::DataDir { outcome: Ok(d) }),
        events[1] == (LogEventModel::DirCreated { outcome: Err(m) }),
    ensures
        log_run_state(events, sep) == (LogStateModel::Failed {
            error: ShimErrorModel::Filesystem(m),
        }),
        count_file_touches(log_run_actions(events, sep)) == 0,
    decreases events.len(),
{
    if events.len() == 2 {
        let dl = events.drop_last();
        assert(dl.len() == 1);
        assert(dl.last() == events[0]);
        assert(dl.drop_last().len() == 0);
        assert(log_run_state(dl.drop_last(), sep) == LogStateModel::Start);
        assert(log_run_actions(dl.drop_last(), sep) =~= Seq::<LogActionModel>::empty());
        let first_step = log_step_spec(LogStateModel::Start, events[0], sep);
        let first_actions = log_run_actions(dl, sep);
        assert(first_actions =~= Seq::<LogActionModel>::empty().push(first_step.1));
        assert(count_appends(Seq::<LogActionModel>::empty()) == 0);
        lemma_append_count_push(Seq::<LogActionModel>::empty(), first_step.1);
        assert(events.last() == events[1]);
        lemma_append_count_push(first_actions, log_step_spec(log_run_state(dl, sep), events.last(), sep).1);
    } else {
        lemma_dir_failure_no_log_file(events.drop_last(), sep, d, m);
        lemma_append_count_push(
            log_run_actions(events.drop_last(), sep),
            log_step_spec(log_run_state(events.drop_last(), sep), events.last(), sep).1,
        );
    }
}

} // verus!
