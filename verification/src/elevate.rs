//! The elevated script runner. An elevated subprocess cannot report its result
//! over the normal return channel in a way that tells "succeeded silently"
//! from "prompt declined" from "threw mid-script", so the script is wrapped in
//! a try/catch envelope that writes a fixed success sentinel — or the caught
//! failure's message — to a side-channel log file, and the outcome is
//! classified from that log afterwards.
//!
//! All filesystem and process work is the host's: this module decides. The
//! host drives [`runner_step`] as a protocol — it performs the action that
//! [`next_action`] names for the current state and feeds the observed result
//! back as the next event. The step function guarantees that the only road to
//! the final report passes through the temp-file cleanup action, whatever the
//! events were, so both temporary files are removed on every exit path.

use vstd::prelude::*;
use vstd::string::*;

use crate::text::{
    decimal_spec, ends_with_spec, lemma_decimal_injective, str_ends_with, trim_spec, trim_str,
    u64_to_decimal,
};
use crate::{ErrorModel, OpsError};

verus! {

/// The success sentinel the wrapped script writes to the log when the caller's
/// script body ran to completion.
pub open spec fn sentinel_spec() -> Seq<char> {
    "OK"@
}

/// The try/catch envelope around a script body: on success it writes the
/// sentinel to the log file at `log_path`, on a caught failure it writes the
/// failure's message there and signals non-zero completion.
pub open spec fn wrapped_script_spec(script: Seq<char>, log_path: Seq<char>) -> Seq<char> {
    "try {\n"@ + script + "\n'OK' | Out-File -FilePath '"@ + log_path
        + "' -Encoding UTF8\n} catch {\n$_.Exception.Message | Out-File -FilePath '"@ + log_path
        + "' -Encoding UTF8\nexit 1\n}"@
}

/// Wrap `script` in the self-reporting envelope targeting `log_path`.
pub fn wrap_script(script: &str, log_path: &str) -> (r: String)
    ensures
        r@ == wrapped_script_spec(script@, log_path@),
{
    let mut r = String::from_str("try {\n");
    r.append(script);
    r.append("\n'OK' | Out-File -FilePath '");
    r.append(log_path);
    r.append("' -Encoding UTF8\n} catch {\n$_.Exception.Message | Out-File -FilePath '");
    r.append(log_path);
    r.append("' -Encoding UTF8\nexit 1\n}");
    proof {
        assert(r@ =~= wrapped_script_spec(script@, log_path@));
    }
    r
}

/// The script file name derived from a stamp.
pub open spec fn script_name_spec(stamp: u64) -> Seq<char> {
    "ops_printer_"@ + decimal_spec(stamp as nat) + ".ps1"@
}

/// The log file name derived from a stamp.
pub open spec fn log_name_spec(stamp: u64) -> Seq<char> {
    "ops_printer_"@ + decimal_spec(stamp as nat) + ".log"@
}

/// The scratch-file name the wrapped script is persisted under.
pub fn script_file_name(stamp: u64) -> (r: String)
    ensures
        r@ == script_name_spec(stamp),
{
    let mut r = String::from_str("ops_printer_");
    let d = u64_to_decimal(stamp);
    r.append(d.as_str());
    r.append(".ps1");
    proof {
        assert(r@ =~= script_name_spec(stamp));
    }
    r
}

/// The scratch-file name the side-channel log is expected under.
pub fn log_file_name(stamp: u64) -> (r: String)
    ensures
        r@ == log_name_spec(stamp),
{
    let mut r = String::from_str("ops_printer_");
    let d = u64_to_decimal(stamp);
    r.append(d.as_str());
    r.append(".log");
    proof {
        assert(r@ =~= log_name_spec(stamp));
    }
    r
}

/// Temp names never collide: distinct stamps give distinct script names and
/// distinct log names, and a script name is never a log name, so concurrent
/// runs that draw distinct stamps touch disjoint files.
pub proof fn lemma_temp_names_unique(a: u64, b: u64)
    ensures
        a != b ==> script_name_spec(a) != script_name_spec(b),
        a != b ==> log_name_spec(a) != log_name_spec(b),
        script_name_spec(a) != log_name_spec(b),
{
    reveal_strlit("ops_printer_");
    reveal_strlit(".ps1");
    reveal_strlit(".log");
    let p = "ops_printer_"@;
    let s1 = ".ps1"@;
    let s2 = ".log"@;
    let da = decimal_spec(a as nat);
    let db = decimal_spec(b as nat);
    if a != b && script_name_spec(a) == script_name_spec(b) {
        assert((p + da + s1).len() == (p + db + s1).len());
        assert(da.len() == db.len());
        assert forall|k: int| 0 <= k < da.len() implies da[k] == db[k] by {
            assert((p + da + s1)[p.len() + k] == da[k]);
            assert((p + db + s1)[p.len() + k] == db[k]);
        }
        assert(da =~= db);
        lemma_decimal_injective(a as nat, b as nat);
    }
    if a != b && log_name_spec(a) == log_name_spec(b) {
        assert((p + da + s2).len() == (p + db + s2).len());
        assert(da.len() == db.len());
        assert forall|k: int| 0 <= k < da.len() implies da[k] == db[k] by {
            assert((p + da + s2)[p.len() + k] == da[k]);
            assert((p + db + s2)[p.len() + k] == db[k]);
        }
        assert(da =~= db);
        lemma_decimal_injective(a as nat, b as nat);
    }
    if script_name_spec(a) == log_name_spec(b) {
        let sa = script_name_spec(a);
        let lb = log_name_spec(b);
        assert(sa[sa.len() - 1] == '1');
        assert(lb[lb.len() - 1] == 'g');
    }
}

/// The outcome classification over the raw observations: whether the
/// launcher reported success, what it printed on its error stream, and the
/// log's content (empty when the log could not be read at all).
pub open spec fn classify_spec(exit_ok: bool, stderr: Seq<char>, log: Seq<char>) -> Result<
    (),
    ErrorModel,
> {
    let t = trim_spec(log);
    if !exit_ok {
        Err(ErrorModel::LaunchFailure("Elevation failed: "@ + stderr))
    } else if t.len() == 0 {
        Err(ErrorModel::NoOutput)
    } else if ends_with_spec(t, sentinel_spec()) {
        Ok(())
    } else {
        Err(ErrorModel::ScriptError("Elevated script error: "@ + t))
    }
}

/// The model of an executable verdict.
pub open spec fn verdict_model(r: Result<(), OpsError>) -> Result<(), ErrorModel> {
    match r {
        Ok(u) => Ok(u),
        Err(e) => Err(e@),
    }
}

/// Classify the outcome of an elevated run. The log content is compared
/// against the sentinel after trimming; an "ends with" match is accepted
/// because the log-writing tool may prefix an encoding mark.
pub fn classify_log(exit_ok: bool, stderr: &String, log: &String) -> (r: Result<(), OpsError>)
    ensures
        verdict_model(r) == classify_spec(exit_ok, stderr@, log@),
{
    let t = trim_str(log.as_str());
    if !exit_ok {
        let mut m = String::from_str("Elevation failed: ");
        m.append(stderr.as_str());
        Err(OpsError::LaunchFailure(m))
    } else if t.unicode_len() == 0 {
        proof {
            assert(trim_spec(log@).len() == 0);
        }
        Err(OpsError::NoOutput)
    } else if str_ends_with(t, "OK") {
        Ok(())
    } else {
        let mut m = String::from_str("Elevated script error: ");
        m.append(t);
        Err(OpsError::ScriptError(m))
    }
}

/// The runner's position in the protocol. The host performs the action that
/// [`next_action`] gives for the state and feeds the observation back through
/// [`runner_step`].
pub enum RunnerState {
    /// The wrapped script is in hand; the script file is not yet on disk.
    Ready,
    /// The script file is on disk; the elevated process has not yet run.
    Waiting,
    /// The process ran (or could not be launched is reported separately); the
    /// log has not been read yet.
    ReadingLog { exit_ok: bool, stderr: String },
    /// The verdict is settled; the temp files still exist and must go.
    CleaningUp { verdict: Result<(), OpsError> },
    /// Cleanup was performed; the verdict may be reported.
    Finished { verdict: Result<(), OpsError> },
}

/// Model of a [`RunnerState`].
pub enum StateModel {
    Ready,
    Waiting,
    ReadingLog { exit_ok: bool, stderr: Seq<char> },
    CleaningUp { verdict: Result<(), ErrorModel> },
    Finished { verdict: Result<(), ErrorModel> },
}

impl View for RunnerState {
    type V = StateModel;

    open spec fn view(&self) -> StateModel {
        match self {
            RunnerState::Ready => StateModel::Ready,
            RunnerState::Waiting => StateModel::Waiting,
            RunnerState::ReadingLog { exit_ok, stderr } => (StateModel::ReadingLog {
                exit_ok: *exit_ok,
                stderr: stderr@,
            }),
            RunnerState::CleaningUp { verdict } => (StateModel::CleaningUp {
                verdict: verdict_model(*verdict),
            }),
            RunnerState::Finished { verdict } => (StateModel::Finished {
                verdict: verdict_model(*verdict),
            }),
        }
    }
}

/// What the host observed while carrying out the last action.
pub enum RunnerEvent {
    /// Result of persisting the wrapped script (the error carries the message).
    WriteDone(Result<(), String>),
    /// The elevated process could not be started at all.
    LaunchFailed(String),
    /// The launcher finished; `exit_ok` is its reported success, `stderr` what
    /// it printed on its error stream.
    Exited { exit_ok: bool, stderr: String },
    /// The log file's content, `None` when the file was missing.
    LogRead(Option<String>),
    /// Both temp files were dealt with.
    Cleaned,
}

/// Model of a [`RunnerEvent`].
pub enum EventModel {
    WriteDone(Result<(), Seq<char>>),
    LaunchFailed(Seq<char>),
    Exited { exit_ok: bool, stderr: Seq<char> },
    LogRead(Option<Seq<char>>),
    Cleaned,
}

impl View for RunnerEvent {
    type V = EventModel;

    open spec fn view(&self) -> EventModel {
        match self {
            RunnerEvent::WriteDone(Ok(u)) => EventModel::WriteDone(Ok(*u)),
            RunnerEvent::WriteDone(Err(m)) => EventModel::WriteDone(Err(m@)),
            RunnerEvent::LaunchFailed(m) => EventModel::LaunchFailed(m@),
            RunnerEvent::Exited { exit_ok, stderr } => (EventModel::Exited {
                exit_ok: *exit_ok,
                stderr: stderr@,
            }),
            RunnerEvent::LogRead(Some(l)) => EventModel::LogRead(Some(l@)),
            RunnerEvent::LogRead(None) => EventModel::LogRead(None),
            RunnerEvent::Cleaned => EventModel::Cleaned,
        }
    }
}

/// What the host must do next for a given state.
#[derive(Clone, Copy, Debug, PartialEq, Eq, Structural)]
pub enum RunnerAction {
    /// Persist the wrapped script to the script file.
    WriteScriptFile,
    /// Launch the elevated process on the script file and block until it is
    /// done.
    LaunchAndWait,
    /// Read the log file, tolerating a missing one.
    ReadLogFile,
    /// Delete both the script file and the log file, ignoring delete errors.
    RemoveTempFiles,
    /// Hand the verdict to the caller.
    Report,
}

/// The action the protocol prescribes in each state.
pub open spec fn action_spec(s: StateModel) -> RunnerAction {
    match s {
        StateModel::Ready => RunnerAction::WriteScriptFile,
        StateModel::Waiting => RunnerAction::LaunchAndWait,
        StateModel::ReadingLog { .. } => RunnerAction::ReadLogFile,
        StateModel::CleaningUp { .. } => RunnerAction::RemoveTempFiles,
        StateModel::Finished { .. } => RunnerAction::Report,
    }
}

/// The protocol's transition: how a state advances on an observation. An
/// event that does not answer the state's pending action changes nothing.
pub open spec fn step_spec(s: StateModel, e: EventModel) -> StateModel {
    match (s, e) {
        (StateModel::Ready, EventModel::WriteDone(Ok(_))) => StateModel::Waiting,
        (StateModel::Ready, EventModel::WriteDone(Err(m))) => (StateModel::CleaningUp {
            verdict: Err(ErrorModel::IoError("Failed to write temp script: "@ + m)),
        }),
        (StateModel::Waiting, EventModel::LaunchFailed(m)) => (StateModel::CleaningUp {
            verdict: Err(ErrorModel::LaunchFailure("Failed to launch elevated process: "@ + m)),
        }),
        (StateModel::Waiting, EventModel::Exited { exit_ok, stderr }) => (StateModel::ReadingLog {
            exit_ok,
            stderr,
        }),
        (StateModel::ReadingLog { exit_ok, stderr }, EventModel::LogRead(l)) => (
        StateModel::CleaningUp {
            verdict: classify_spec(
                exit_ok,
                stderr,
                match l {
                    Some(c) => c,
                    None => Seq::empty(),
                },
            ),
        }),
        (StateModel::CleaningUp { verdict }, EventModel::Cleaned) => (StateModel::Finished {
            verdict,
        }),
        (other, _) => other,
    }
}

/// The executable action choice.
pub fn next_action(s: &RunnerState) -> (a: RunnerAction)
    ensures
        a == action_spec(s@),
{
    match s {
        RunnerState::Ready => RunnerAction::WriteScriptFile,
        RunnerState::Waiting => RunnerAction::LaunchAndWait,
        RunnerState::ReadingLog { .. } => RunnerAction::ReadLogFile,
        RunnerState::CleaningUp { .. } => RunnerAction::RemoveTempFiles,
        RunnerState::Finished { .. } => RunnerAction::Report,
    }
}

/// The executable transition. The host calls this with what it observed and
/// continues with the returned state.
pub fn runner_step(s: RunnerState, e: RunnerEvent) -> (r: RunnerState)
    ensures
        r@ == step_spec(s@, e@),
{
    match (s, e) {
        (RunnerState::Ready, RunnerEvent::WriteDone(Ok(()))) => RunnerState::Waiting,
        (RunnerState::Ready, RunnerEvent::WriteDone(Err(m))) => {
            let mut t = String::from_str("Failed to write temp script: ");
            t.append(m.as_str());
            RunnerState::CleaningUp { verdict: Err(OpsError::IoError(t)) }
        },
        (RunnerState::Waiting, RunnerEvent::LaunchFailed(m)) => {
            let mut t = String::from_str("Failed to launch elevated process: ");
            t.append(m.as_str());
            RunnerState::CleaningUp { verdict: Err(OpsError::LaunchFailure(t)) }
        },
        (RunnerState::Waiting, RunnerEvent::Exited { exit_ok, stderr }) => {
            RunnerState::ReadingLog { exit_ok, stderr }
        },
        (RunnerState::ReadingLog { exit_ok, stderr }, RunnerEvent::LogRead(l)) => {
            let log = match l {
                Some(c) => c,
                None => String::new(),
            };
            let verdict = classify_log(exit_ok, &stderr, &log);
            RunnerState::CleaningUp { verdict }
        },
        (RunnerState::CleaningUp { verdict }, RunnerEvent::Cleaned) => {
            RunnerState::Finished { verdict }
        },
        (other, _) => other,
    }
}

/// Cleanup is unconditional: the protocol reaches its final report only out of
/// the cleanup state, and every settled verdict — success sentinel, failure
/// message, or absent log alike — passes through the state whose action
/// removes both temp files before the verdict can be reported.
pub proof fn lemma_cleanup_before_report(s: StateModel, e: EventModel)
    ensures
        step_spec(s, e) is Finished ==> (s is Finished || (s is CleaningUp && action_spec(s)
            == RunnerAction::RemoveTempFiles)),
        (s is ReadingLog && e is LogRead) ==> (step_spec(s, e) is CleaningUp && action_spec(
            step_spec(s, e),
        ) == RunnerAction::RemoveTempFiles),
        (s is Ready && e is WriteDone && e->WriteDone_0 is Err) ==> step_spec(s, e) is CleaningUp,
        (s is Waiting && e is LaunchFailed) ==> step_spec(s, e) is CleaningUp,
{
}

/// The transition out of the cleanup state carries the settled outcome
/// through unchanged, in all three log outcomes alike.
pub proof fn lemma_cleanup_keeps_verdict(v: Result<(), ErrorModel>)
    ensures
        step_spec(StateModel::CleaningUp { verdict: v }, EventModel::Cleaned) == (
        StateModel::Finished { verdict: v }),
{
}

/// A log whose trimmed content is exactly the success sentinel classifies as
/// success.
pub proof fn lemma_sentinel_reports_success(stderr: Seq<char>, log: Seq<char>)
    requires
        trim_spec(log) == sentinel_spec(),
    ensures
        classify_spec(true, stderr, log) is Ok,
{
    reveal_strlit("OK");
    let t = trim_spec(log);
    assert(t.skip(0) =~= t);
}

/// A missing or effectively empty log — the declined-prompt case — classifies
/// as the distinct no-output condition, never as success.
pub proof fn lemma_no_output_is_not_success(stderr: Seq<char>, log: Seq<char>)
    requires
        trim_spec(log).len() == 0,
    ensures
        classify_spec(true, stderr, log) == Err::<(), ErrorModel>(ErrorModel::NoOutput),
{
}

/// At the protocol level: a run whose launcher reported success and whose log
/// reads back as exactly the sentinel settles a success verdict, and heads
/// into cleanup with it.
pub proof fn lemma_protocol_success(stderr: Seq<char>, log: Seq<char>)
    requires
        trim_spec(log) == sentinel_spec(),
    ensures
        step_spec(
            StateModel::ReadingLog { exit_ok: true, stderr },
            EventModel::LogRead(Some(log)),
        ) == (StateModel::CleaningUp { verdict: Ok(()) }),
{
    lemma_sentinel_reports_success(stderr, log);
}

/// The absent-log observation classifies as no-output: a missing file is read
/// as empty content, whose trim is empty.
pub proof fn lemma_missing_log_is_no_output(exit_ok: bool, stderr: Seq<char>)
    requires
        exit_ok,
    ensures
        step_spec(
            StateModel::ReadingLog { exit_ok, stderr },
            EventModel::LogRead(None),
        ) == (StateModel::CleaningUp { verdict: Err(ErrorModel::NoOutput) }),
{
    assert(trim_spec(Seq::<char>::empty()).len() == 0);
}

} // verus!
