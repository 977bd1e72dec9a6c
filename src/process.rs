//! Supervision of one child process: its output goes to a listener, its
//! termination decides the outcome, and a cancellation kills it.
use vstd::prelude::*;
use vstd::utf8::{decode_utf8, valid_utf8};

use crate::channel::{classify_chunk, is_error_like_spec, lossy_of, OutputLine, OutputStream};

verus! {

/// How a child ended, as its termination event reports it.
#[derive(Clone, Copy, PartialEq, Eq, Structural, Debug)]
pub struct ExitStatus {
    pub code: Option<i32>,
    pub signal: Option<i32>,
}

/// Why a process job failed.
pub enum ProcessFailure {
    /// The executable could not be started (missing, not permitted).
    Spawn(String),
    /// The child ended with a non-zero code, or with none (killed by a signal).
    Exit(ExitStatus),
    /// Reading the child's output failed.
    Stream(String),
}

/// Where a process job stands. The last three are final.
pub enum ProcessPhase {
    NotStarted,
    Running,
    Completed,
    Cancelled,
    Failed(ProcessFailure),
}

/// What the host reports to a process job.
pub enum ProcessEvent {
    /// The child was started.
    Spawned,
    /// The child could not be started.
    SpawnFailed(String),
    /// A chunk of output arrived on one stream.
    Output(OutputStream, Vec<u8>),
    /// The child ended.
    Terminated(ExitStatus),
    /// Reading the output failed.
    StreamError(String),
    /// The output channel closed without a termination event.
    Closed,
    /// Someone asked for the job to stop.
    CancelRequested,
}

/// What the host is to do after an event.
pub enum ProcessAction {
    Nothing,
    /// Deliver this output to the listener.
    Emit(OutputLine),
    /// The job is over: kill the child first where `kill`, then remove the
    /// partial output file where `discard_output`.
    Stop { kill: bool, discard_output: bool },
}

/// One process job. `has_output` says whether the child writes a file that
/// must not survive a failure or a cancellation.
pub struct ProcessJob {
    pub phase: ProcessPhase,
    pub has_output: bool,
}

/// Whether a phase is final.
pub open spec fn is_final(p: ProcessPhase) -> bool {
    p is Completed || p is Cancelled || p is Failed
}

/// The phase a termination leads to: success on exit code 0 and only there.
pub open spec fn phase_after_exit(status: ExitStatus) -> ProcessPhase {
    if status.code == Some(0i32) {
        ProcessPhase::Completed
    } else {
        ProcessPhase::Failed(ProcessFailure::Exit(status))
    }
}

/// The status of a child whose termination was never reported.
pub open spec fn unknown_exit() -> ExitStatus {
    ExitStatus { code: None, signal: None }
}

/// The phase after an event. Final phases never change. Only a termination
/// with exit code 0 completes a job; a channel that closes without one fails
/// it with no exit status.
pub open spec fn next_phase(p: ProcessPhase, e: ProcessEvent) -> ProcessPhase {
    match p {
        ProcessPhase::NotStarted => match e {
            ProcessEvent::Spawned => ProcessPhase::Running,
            ProcessEvent::SpawnFailed(m) => ProcessPhase::Failed(ProcessFailure::Spawn(m)),
            ProcessEvent::CancelRequested => ProcessPhase::Cancelled,
            _ => ProcessPhase::NotStarted,
        },
        ProcessPhase::Running => match e {
            ProcessEvent::Terminated(status) => phase_after_exit(status),
            ProcessEvent::StreamError(m) => ProcessPhase::Failed(ProcessFailure::Stream(m)),
            ProcessEvent::Closed => phase_after_exit(unknown_exit()),
            ProcessEvent::CancelRequested => ProcessPhase::Cancelled,
            _ => ProcessPhase::Running,
        },
        _ => p,
    }
}

/// The action for an event that is not output of a running child: a stop
/// where the event ends the job, nothing otherwise. A running child is killed
/// on cancellation, on a failed read and when its output closes without a
/// termination; its partial output goes whenever the job ends other than in
/// success.
pub open spec fn control_action(p: ProcessPhase, e: ProcessEvent, has_output: bool) -> ProcessAction {
    let n = next_phase(p, e);
    if !is_final(p) && is_final(n) {
        ProcessAction::Stop {
            kill: p is Running && (e is CancelRequested || e is StreamError || e is Closed),
            discard_output: has_output && p is Running && !(n is Completed),
        }
    } else {
        ProcessAction::Nothing
    }
}

impl ProcessJob {
    /// A job whose child is not started yet.
    pub fn new(has_output: bool) -> (r: ProcessJob)
        ensures
            r.phase is NotStarted,
            r.has_output == has_output,
    {
        ProcessJob { phase: ProcessPhase::NotStarted, has_output }
    }

    /// Whether the job is over.
    pub fn is_finished(&self) -> (r: bool)
        ensures
            r == is_final(self.phase),
    {
        match self.phase {
            ProcessPhase::Completed | ProcessPhase::Cancelled | ProcessPhase::Failed(_) => true,
            _ => false,
        }
    }

    /// Takes in one event and says what to do. Each chunk of output of a
    /// running child becomes one output line.
    pub fn step(&mut self, event: ProcessEvent) -> (action: ProcessAction)
        ensures
            final(self).phase == next_phase(old(self).phase, event),
            final(self).has_output == old(self).has_output,
            !(old(self).phase is Running && event is Output) ==> action == control_action(
                old(self).phase,
                event,
                old(self).has_output,
            ),
            old(self).phase is Running ==> (event matches ProcessEvent::Output(stream, bytes) ==> (
            action matches ProcessAction::Emit(line) && {
                &&& line.stream == stream
                &&& line.text@ == lossy_of(bytes@)
                &&& valid_utf8(bytes@) ==> line.text@ == decode_utf8(bytes@)
                &&& line.error_like == is_error_like_spec(line.text@)
            })),
    {
        let running = match self.phase {
            ProcessPhase::Running => true,
            _ => false,
        };
        if !running {
            let not_started = match self.phase {
                ProcessPhase::NotStarted => true,
                _ => false,
            };
            if !not_started {
                return ProcessAction::Nothing;
            }
            return match event {
                ProcessEvent::Spawned => {
                    self.phase = ProcessPhase::Running;
                    ProcessAction::Nothing
                },
                ProcessEvent::SpawnFailed(m) => {
                    self.phase = ProcessPhase::Failed(ProcessFailure::Spawn(m));
                    ProcessAction::Stop { kill: false, discard_output: false }
                },
                ProcessEvent::CancelRequested => {
                    self.phase = ProcessPhase::Cancelled;
                    ProcessAction::Stop { kill: false, discard_output: false }
                },
                _ => ProcessAction::Nothing,
            };
        }
        match event {
            ProcessEvent::Output(stream, bytes) => ProcessAction::Emit(classify_chunk(stream, &bytes)),
            ProcessEvent::Terminated(status) => {
                if status.code == Some(0i32) {
                    self.phase = ProcessPhase::Completed;
                    ProcessAction::Stop { kill: false, discard_output: false }
                } else {
                    self.phase = ProcessPhase::Failed(ProcessFailure::Exit(status));
                    ProcessAction::Stop { kill: false, discard_output: self.has_output }
                }
            },
            ProcessEvent::StreamError(m) => {
                self.phase = ProcessPhase::Failed(ProcessFailure::Stream(m));
                ProcessAction::Stop { kill: true, discard_output: self.has_output }
            },
            ProcessEvent::Closed => {
                self.phase = ProcessPhase::Failed(
                    ProcessFailure::Exit(ExitStatus { code: None, signal: None }),
                );
                ProcessAction::Stop { kill: true, discard_output: self.has_output }
            },
            ProcessEvent::CancelRequested => {
                self.phase = ProcessPhase::Cancelled;
                ProcessAction::Stop { kill: true, discard_output: self.has_output }
            },
            _ => ProcessAction::Nothing,
        }
    }
}

/// The phase after a run of events.
pub open spec fn run_phase(p: ProcessPhase, events: Seq<ProcessEvent>) -> ProcessPhase
    decreases events.len(),
{
    if events.len() == 0 {
        p
    } else {
        run_phase(next_phase(p, events[0]), events.drop_first())
    }
}

/// The exit code decides a running job's outcome: code 0 completes it, any
/// other code (or none) fails it with that very status.
pub proof fn lemma_exit_code_decides(status: ExitStatus)
    ensures
        next_phase(ProcessPhase::Running, ProcessEvent::Terminated(status)) is Completed
            <==> status.code == Some(0i32),
        status.code != Some(0i32) ==> next_phase(
            ProcessPhase::Running,
            ProcessEvent::Terminated(status),
        ) == ProcessPhase::Failed(ProcessFailure::Exit(status)),
{
}

/// Over a whole run: once a running job's child terminates, the exit code
/// decides the outcome for good, whatever events follow.
pub proof fn lemma_exit_code_decides_run(status: ExitStatus, rest: Seq<ProcessEvent>)
    ensures
        run_phase(ProcessPhase::Running, seq![ProcessEvent::Terminated(status)] + rest)
            == phase_after_exit(status),
{
    let events = seq![ProcessEvent::Terminated(status)] + rest;
    assert(events.drop_first() =~= rest);
    lemma_final_phase_stays(phase_after_exit(status), rest);
}

/// A job that is over stays as it ended, whatever comes after.
pub proof fn lemma_final_phase_stays(p: ProcessPhase, events: Seq<ProcessEvent>)
    requires
        is_final(p),
    ensures
        run_phase(p, events) == p,
    decreases events.len(),
{
    if events.len() > 0 {
        lemma_final_phase_stays(next_phase(p, events[0]), events.drop_first());
    }
}

/// Asking a job to stop twice ends it as asking once does, and the second
/// request makes the host do nothing.
pub proof fn lemma_cancel_idempotent(p: ProcessPhase, has_output: bool)
    ensures
        next_phase(next_phase(p, ProcessEvent::CancelRequested), ProcessEvent::CancelRequested)
            == next_phase(p, ProcessEvent::CancelRequested),
        control_action(
            next_phase(p, ProcessEvent::CancelRequested),
            ProcessEvent::CancelRequested,
            has_output,
        ) == ProcessAction::Nothing,
{
}

} // verus!
