//! The autostart registrar, as a step machine.
//!
//! The registrar is a linear sequence of fallible outside steps: read the
//! application-data environment variable, create the startup folder, resolve
//! the running executable, check whether the startup script already exists,
//! and write it if it does not. The decisions between those steps live here:
//! `registrar_step` takes the current state and the outcome of the last
//! outside step, and returns the next state together with the next thing the
//! surrounding process must do. The process performing the filesystem work
//! drives the machine until it asks to stop.
//!
//! The run-level lemmas at the bottom establish the registrar's guarantees:
//! a run writes the script at most once, a finished run reports a creation
//! exactly when a write was issued, a run whose existence check finds the
//! script present writes nothing, and a run whose environment variable is
//! absent fails with an environment error without creating anything.

use crate::errors::ShimError;
use crate::errors::ShimErrorModel;
use crate::script::script_content;
use crate::script::script_content_spec;
use crate::script::script_path;
use crate::script::script_path_spec;
use crate::script::startup_dir_path;
use crate::script::startup_dir_spec;
use vstd::prelude::*;

verus! {

/// The phase the registrar is in, between two outside steps.
pub enum RegState {
    /// Nothing has happened yet; the environment variable is being read.
    Start,
    /// The startup folder path is known; the folder is being created.
    EnsuringDir { startup_dir: String },
    /// The startup folder exists; the running executable is being resolved.
    ResolvingExe { startup_dir: String },
    /// The script path is known; its existence is being checked.
    CheckingScript { script_path: String, exe_path: String },
    /// The script was absent; it is being written.
    WritingScript { script_path: String, content: String },
    /// Registration finished; `created` tells whether a script was written.
    Done { created: bool },
    /// A step failed; registration stopped with this error.
    Failed { error: ShimError },
}

/// The outcome of one outside step, reported back to the machine.
pub enum RegEvent {
    /// The application-data environment variable, or the failure message.
    EnvVar { outcome: Result<String, String> },
    /// The outcome of creating the startup folder and its parents.
    DirCreated { outcome: Result<(), String> },
    /// The resolved path of the running executable, or the failure message.
    ExeResolved { outcome: Result<String, String> },
    /// Whether the startup script already exists.
    ScriptExists { exists: bool },
    /// The outcome of writing the startup script.
    ScriptWritten { outcome: Result<(), String> },
}

/// What the surrounding process must do next.
pub enum RegAction {
    /// Read the application-data environment variable.
    ReadEnvVar,
    /// Create this directory, with its parents, if absent.
    CreateDir { path: String },
    /// Resolve the path of the running executable.
    ResolveExe,
    /// Check whether a file exists at this path.
    CheckExists { path: String },
    /// Create a file at this path with this content.
    WriteFile { path: String, content: String },
    /// Nothing: the run is over.
    Stop,
}

/// The mathematical shape of a `RegState`.
pub enum RegStateModel {
    Start,
    EnsuringDir { startup_dir: Seq<char> },
    ResolvingExe { startup_dir: Seq<char> },
    CheckingScript { script_path: Seq<char>, exe_path: Seq<char> },
    WritingScript { script_path: Seq<char>, content: Seq<char> },
    Done { created: bool },
    Failed { error: ShimErrorModel },
}

/// The mathematical shape of a `RegEvent`.
pub enum RegEventModel {
    EnvVar { outcome: Result<Seq<char>, Seq<char>> },
    DirCreated { outcome: Result<(), Seq<char>> },
    ExeResolved { outcome: Result<Seq<char>, Seq<char>> },
    ScriptExists { exists: bool },
    ScriptWritten { outcome: Result<(), Seq<char>> },
}

/// The mathematical shape of a `RegAction`.
pub enum RegActionModel {
    ReadEnvVar,
    CreateDir { path: Seq<char> },
    ResolveExe,
    CheckExists { path: Seq<char> },
    WriteFile { path: Seq<char>, content: Seq<char> },
    Stop,
}

impl View for RegState {
    type V = RegStateModel;

    open spec fn view(&self) -> RegStateModel {
        match self {
            RegState::Start => RegStateModel::Start,
            RegState::EnsuringDir { startup_dir } => (RegStateModel::EnsuringDir {
                startup_dir: startup_dir@,
            }),
            RegState::ResolvingExe { startup_dir } => (RegStateModel::ResolvingExe {
                startup_dir: startup_dir@,
            }),
            RegState::CheckingScript { script_path, exe_path } => (RegStateModel::CheckingScript {
                script_path: script_path@,
                exe_path: exe_path@,
            }),
            RegState::WritingScript { script_path, content } => (RegStateModel::WritingScript {
                script_path: script_path@,
                content: content@,
            }),
            RegState::Done { created } => (RegStateModel::Done { created: *created }),
            RegState::Failed { error } => (RegStateModel::Failed { error: error@ }),
        }
    }
}

impl View for RegEvent {
    type V = RegEventModel;

    open spec fn view(&self) -> RegEventModel {
        match self {
            RegEvent::EnvVar { outcome } => (RegEventModel::EnvVar {
                outcome: match outcome {
                    Ok(v) => Ok(v@),
                    Err(m) => Err(m@),
                },
            }),
            RegEvent::DirCreated { outcome } => (RegEventModel::DirCreated {
                outcome: match outcome {
                    Ok(_) => Ok(()),
                    Err(m) => Err(m@),
                },
            }),
            RegEvent::ExeResolved { outcome } => (RegEventModel::ExeResolved {
                outcome: match outcome {
                    Ok(v) => Ok(v@),
                    Err(m) => Err(m@),
                },
            }),
            RegEvent::ScriptExists { exists } => (RegEventModel::ScriptExists { exists: *exists }),
            RegEvent::ScriptWritten { outcome } => (RegEventModel::ScriptWritten {
                outcome: match outcome {
                    Ok(_) => Ok(()),
                    Err(m) => Err(m@),
                },
            }),
        }
    }
}

impl View for RegAction {
    type V = RegActionModel;

    open spec fn view(&self) -> RegActionModel {
        match self {
            RegAction::ReadEnvVar => RegActionModel::ReadEnvVar,
            RegAction::CreateDir { path } => (RegActionModel::CreateDir { path: path@ }),
            RegAction::ResolveExe => RegActionModel::ResolveExe,
            RegAction::CheckExists { path } => (RegActionModel::CheckExists { path: path@ }),
            RegAction::WriteFile { path, content } => (RegActionModel::WriteFile {
                path: path@,
                content: content@,
            }),
            RegAction::Stop => RegActionModel::Stop,
        }
    }
}

/// One decision of the registrar: from the current state and the outcome of
/// the last outside step to the next state and the next outside step. An
/// event that does not answer the pending step leaves the state unchanged
/// and stops.
pub open spec fn reg_step_spec(s: RegStateModel, e: RegEventModel, sep: Seq<char>) -> (
    RegStateModel,
    RegActionModel,
) {
    match (s, e) {
        (RegStateModel::Start, RegEventModel::EnvVar { outcome }) => match outcome {
            Ok(appdata) => {
                let dir = startup_dir_spec(appdata, sep);
                (
                    RegStateModel::EnsuringDir { startup_dir: dir },
                    RegActionModel::CreateDir { path: dir },
                )
            },
            Err(m) => (
                RegStateModel::Failed { error: ShimErrorModel::Environment(m) },
                RegActionModel::Stop,
            ),
        },
        (RegStateModel::EnsuringDir { startup_dir }, RegEventModel::DirCreated { outcome }) => match outcome {
            Ok(_) => (RegStateModel::ResolvingExe { startup_dir }, RegActionModel::ResolveExe),
            Err(m) => (
                RegStateModel::Failed { error: ShimErrorModel::Filesystem(m) },
                RegActionModel::Stop,
            ),
        },
        (RegStateModel::ResolvingExe { startup_dir }, RegEventModel::ExeResolved { outcome }) => match outcome {
            Ok(exe) => {
                let p = script_path_spec(startup_dir, sep);
                (
                    RegStateModel::CheckingScript { script_path: p, exe_path: exe },
                    RegActionModel::CheckExists { path: p },
                )
            },
            Err(m) => (
                RegStateModel::Failed { error: ShimErrorModel::Resolution(m) },
                RegActionModel::Stop,
            ),
        },
        (
            RegStateModel::CheckingScript { script_path, exe_path },
            RegEventModel::ScriptExists { exists },
        ) => {
            if exists {
                (RegStateModel::Done { created: false }, RegActionModel::Stop)
            } else {
                let content = script_content_spec(exe_path);
                (
                    RegStateModel::WritingScript { script_path, content },
                    RegActionModel::WriteFile { path: script_path, content },
                )
            }
        },
        (RegStateModel::WritingScript { .. }, RegEventModel::ScriptWritten { outcome }) => match outcome {
            Ok(_) => (RegStateModel::Done { created: true }, RegActionModel::Stop),
            Err(m) => (
                RegStateModel::Failed { error: ShimErrorModel::Filesystem(m) },
                RegActionModel::Stop,
            ),
        },
        (other, _) => (other, RegActionModel::Stop),
    }
}

/// The start of a registrar run: the initial state, and the first outside
/// step the surrounding process must perform.
pub fn registrar_start() -> (r: (RegState, RegAction))
    ensures
        r.0@ == RegStateModel::Start,
        r.1@ == RegActionModel::ReadEnvVar,
{
    (RegState::Start, RegAction::ReadEnvVar)
}

/// One decision of the registrar. `sep` is the host's path separator, used
/// to join the startup folder and script paths.
pub fn registrar_step(state: RegState, event: RegEvent, sep: &str) -> (r: (RegState, RegAction))
    ensures
        (r.0@, r.1@) == reg_step_spec(state@, event@, sep@),
{
    match (state, event) {
        (RegState::Start, RegEvent::EnvVar { outcome }) => match outcome {
            Ok(appdata) => {
                let dir = startup_dir_path(appdata.as_str(), sep);
                let dir_for_action = dir.clone();
                (
                    RegState::EnsuringDir { startup_dir: dir },
                    RegAction::CreateDir { path: dir_for_action },
                )
            },
            Err(m) => (RegState::Failed { error: ShimError::Environment(m) }, RegAction::Stop),
        },
        (RegState::EnsuringDir { startup_dir }, RegEvent::DirCreated { outcome }) => match outcome {
            Ok(_) => (RegState::ResolvingExe { startup_dir }, RegAction::ResolveExe),
            Err(m) => (RegState::Failed { error: ShimError::Filesystem(m) }, RegAction::Stop),
        },
        (RegState::ResolvingExe { startup_dir }, RegEvent::ExeResolved { outcome }) => match outcome {
            Ok(exe) => {
                let p = script_path(startup_dir.as_str(), sep);
                let p_for_action = p.clone();
                (
                    RegState::CheckingScript { script_path: p, exe_path: exe },
                    RegAction::CheckExists { path: p_for_action },
                )
            },
            Err(m) => (RegState::Failed { error: ShimError::Resolution(m) }, RegAction::Stop),
        },
        (
            RegState::CheckingScript { script_path: target, exe_path },
            RegEvent::ScriptExists { exists },
        ) => {
            if exists {
                (RegState::Done { created: false }, RegAction::Stop)
            } else {
                let content = script_content(exe_path.as_str());
                let content_for_action = content.clone();
                let target_for_action = target.clone();
                (
                    RegState::WritingScript { script_path: target, content },
                    RegAction::WriteFile { path: target_for_action, content: content_for_action },
                )
            }
        },
        (RegState::WritingScript { .. }, RegEvent::ScriptWritten { outcome }) => match outcome {
            Ok(_) => (RegState::Done { created: true }, RegAction::Stop),
            Err(m) => (RegState::Failed { error: ShimError::Filesystem(m) }, RegAction::Stop),
        },
        (other, _) => (other, RegAction::Stop),
    }
}

/// The state a run from the start state reaches after the given events.
pub open spec fn reg_run_state(events: Seq<RegEventModel>, sep: Seq<char>) -> RegStateModel
    decreases events.len(),
{
    if events.len() == 0 {
        RegStateModel::Start
    } else {
        reg_step_spec(reg_run_state(events.drop_last(), sep), events.last(), sep).0
    }
}

/// The outside steps a run from the start state asks for, in order.
pub open spec fn reg_run_actions(events: Seq<RegEventModel>, sep: Seq<char>) -> Seq<RegActionModel>
    decreases events.len(),
{
    if events.len() == 0 {
        Seq::<RegActionModel>::empty()
    } else {
        reg_run_actions(events.drop_last(), sep).push(
            reg_step_spec(reg_run_state(events.drop_last(), sep), events.last(), sep).1,
        )
    }
}

/// How many of the actions write the startup script.
pub open spec fn count_writes(actions: Seq<RegActionModel>) -> int
    decreases actions.len(),
{
    if actions.len() == 0 {
        0
    } else {
        count_writes(actions.drop_last()) + (if actions.last() is WriteFile {
            1int
        } else {
            0int
        })
    }
}

/// How many of the actions create a directory.
pub open spec fn count_dir_creates(actions: Seq<RegActionModel>) -> int
    decreases actions.len(),
{
    if actions.len() == 0 {
        0
    } else {
        count_dir_creates(actions.drop_last()) + (if actions.last() is CreateDir {
            1int
        } else {
            0int
        })
    }
}

/// Appending one action to a run's action list raises each count by one
/// exactly when the appended action is of the counted kind.
proof fn lemma_count_push(actions: Seq<RegActionModel>, a: RegActionModel)
    ensures
        count_writes(actions.push(a)) == count_writes(actions) + (if a is WriteFile {
            1int
        } else {
            0int
        }),
        count_dir_creates(actions.push(a)) == count_dir_creates(actions) + (if a is CreateDir {
            1int
        } else {
            0int
        }),
{
    assert(actions.push(a).drop_last() =~= actions);
    assert(actions.push(a).last() == a);
}

/// In any run from the start state, the startup script is written at most
/// once; no write happens before the existence check; and a finished run
/// reports a creation exactly when a write was issued.
pub proof fn lemma_run_writes_at_most_once(events: Seq<RegEventModel>, sep: Seq<char>)
    ensures
        ({
            let s = reg_run_state(events, sep);
            let w = count_writes(reg_run_actions(events, sep));
            &&& 0 <= w <= 1
            &&& ((s is Start || s is EnsuringDir || s is ResolvingExe || s is CheckingScript)
                ==> w == 0)
            &&& (s is WritingScript ==> w == 1)
            &&& (s matches RegStateModel::Done { created } ==> (w == 1 <==> created))
        }),
    decreases events.len(),
{
    if events.len() > 0 {
        lemma_run_writes_at_most_once(events.drop_last(), sep);
        let prev_state = reg_run_state(events.drop_last(), sep);
        let step = reg_step_spec(prev_state, events.last(), sep);
        lemma_count_push(reg_run_actions(events.drop_last(), sep), step.1);
    }
}

/// A run whose existence checks all find the script present never writes
/// it: re-registering after a successful registration is a no-op.
pub proof fn lemma_existing_script_never_rewritten(events: Seq<RegEventModel>, sep: Seq<char>)
    requires
        forall|i: int|
            0 <= i < events.len() ==> ((#[trigger] events[i]) matches RegEventModel::ScriptExists {
                exists,
            } ==> exists),
    ensures
        count_writes(reg_run_actions(events, sep)) == 0,
    decreases events.len(),
{
    if events.len() > 0 {
        lemma_existing_script_never_rewritten(events.drop_last(), sep);
        let prev_state = reg_run_state(events.drop_last(), sep);
        let step = reg_step_spec(prev_state, events.last(), sep);
        lemma_count_push(reg_run_actions(events.drop_last(), sep), step.1);
        assert(events[events.len() - 1] matches RegEventModel::ScriptExists { exists } ==> exists);
    }
}

/// Registering twice in succession creates exactly one script: a first run
/// that finishes having created the script wrote it exactly once, and a
/// second run, finding it present at every existence check, writes nothing
/// more.
pub proof fn lemma_register_twice_creates_one(
    first: Seq<RegEventModel>,
    second: Seq<RegEventModel>,
    sep: Seq<char>,
)
    requires
        reg_run_state(first, sep) == (RegStateModel::Done { created: true }),
        forall|i: int|
            0 <= i < second.len() ==> ((#[trigger] second[i]) matches RegEventModel::ScriptExists {
                exists,
            } ==> exists),
    ensures
        count_writes(reg_run_actions(first, sep)) + count_writes(reg_run_actions(second, sep))
            == 1,
{
    lemma_run_writes_at_most_once(first, sep);
    lemma_existing_script_never_rewritten(second, sep);
}

/// A run whose first event reports the environment variable absent fails
/// with an environment error and never asks for a directory or a file to be
/// created: nothing is made on disk.
pub proof fn lemma_env_absent_creates_nothing(
    events: Seq<RegEventModel>,
    sep: Seq<char>,
    m: Seq<char>,
)
    requires
        events.len() >= 1,
        events[0] == (RegEventModel::EnvVar { outcome: Err(m) }),
    ensures
        reg_run_state(events, sep) == (RegStateModel::Failed {
            error: ShimErrorModel::Environment(m),
        }),
        count_writes(reg_run_actions(events, sep)) == 0,
        count_dir_creates(reg_run_actions(events, sep)) == 0,
    decreases events.len(),
{
    if events.len() == 1 {
        assert(events.last() == events[0]);
        lemma_count_push(reg_run_actions(events.drop_last(), sep), RegActionModel::Stop);
    } else {
        lemma_env_absent_creates_nothing(events.drop_last(), sep, m);
        lemma_count_push(reg_run_actions(events.drop_last(), sep), RegActionModel::Stop);
    }
}

} // verus!
