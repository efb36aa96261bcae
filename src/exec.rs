//! Sandboxed command bracketing: every command gets one begin event before it
//! is spawned and one end event after it completed, failed or was cancelled,
//! both with the same call id, command and working directory.

use vstd::prelude::*;
use crate::protocol::{ExecCommandBeginEvent, ExecCommandEndEvent, ExecCommandSource, EventMsg};
use crate::text::copy_strings;

verus! {

/// Exit code reported for a command that was cancelled or could not run.
pub const CANCELLED_EXIT_CODE: i32 = -1;

/// The access-control mode applied to a spawned command.
#[derive(Debug, Clone, Copy, PartialEq, Eq, Structural)]
pub enum SandboxPolicy {
    ReadOnly,
    WorkspaceWrite,
    DangerFullAccess,
    ExternalSandbox,
}

/// How much of each output stream an end event keeps.
#[derive(Debug, Clone, Copy, PartialEq, Eq, Structural)]
pub struct TruncationPolicy {
    pub max_chars: usize,
}

/// What a command that ran to its end produced.
#[derive(Debug, Clone, PartialEq, Eq)]
pub struct ExecOutput {
    pub exit_code: i32,
    pub stdout: String,
    pub stderr: String,
    pub aggregated_output: String,
    pub duration_ms: u64,
    pub timed_out: bool,
}

/// How a command's run ended: it completed, the caller cancelled it, or it
/// could not be run (the text says why).
#[derive(Debug, Clone, PartialEq, Eq)]
pub enum ExecOutcome {
    Completed(ExecOutput),
    Cancelled,
    Failed(String),
}

/// The first `max` characters of `s`.
pub open spec fn truncated(s: Seq<char>, max: nat) -> Seq<char> {
    if s.len() <= max {
        s
    } else {
        s.subrange(0, max as int)
    }
}

/// The message that stands in the output of a cancelled command.
pub open spec fn aborted_message() -> Seq<char> {
    seq!['c', 'o', 'm', 'm', 'a', 'n', 'd', ' ', 'a', 'b', 'o', 'r', 't', 'e', 'd', ' ', 'b', 'y', ' ', 'u', 's', 'e', 'r']
}

pub fn aborted_message_text() -> (r: String)
    ensures
        r@ == aborted_message(),
{
    let r = String::from_str("command aborted by user");
    proof {
        reveal_strlit("command aborted by user");
    }
    assert(r@ =~= aborted_message());
    r
}

/// Cuts a stream down to what the policy keeps.
pub fn truncate_output(s: &str, policy: TruncationPolicy) -> (r: String)
    ensures
        r@ == truncated(s@, policy.max_chars as nat),
{
    let n = s.unicode_len();
    if n <= policy.max_chars {
        String::from_str(s)
    } else {
        String::from_str(s.substring_char(0, policy.max_chars))
    }
}

/// Whether `end` answers `begin`: same call, turn, command, directory and source.
pub open spec fn end_matches_begin(end: ExecCommandEndEvent, begin: ExecCommandBeginEvent) -> bool {
    &&& end.call_id@ == begin.call_id@
    &&& end.turn_id@ == begin.turn_id@
    &&& end.command@ == begin.command@
    &&& end.cwd@ == begin.cwd@
    &&& end.source == begin.source
}

/// What the end event reports for each way a run can end.
pub open spec fn end_reports(end: ExecCommandEndEvent, outcome: ExecOutcome, max: nat) -> bool {
    match outcome {
        ExecOutcome::Completed(o) => {
            &&& end.exit_code == o.exit_code
            &&& end.duration_ms == o.duration_ms
            &&& end.stdout@ == truncated(o.stdout@, max)
            &&& end.stderr@ == truncated(o.stderr@, max)
            &&& end.aggregated_output@ == truncated(o.aggregated_output@, max)
            &&& end.formatted_output@ == truncated(o.aggregated_output@, max)
        },
        ExecOutcome::Cancelled => {
            &&& end.exit_code == CANCELLED_EXIT_CODE
            &&& end.duration_ms == 0
            &&& end.stdout@.len() == 0
            &&& end.stderr@ == aborted_message()
            &&& end.aggregated_output@ == aborted_message()
            &&& end.formatted_output@ == aborted_message()
        },
        ExecOutcome::Failed(m) => {
            &&& end.exit_code == CANCELLED_EXIT_CODE
            &&& end.duration_ms == 0
            &&& end.stdout@.len() == 0
            &&& end.stderr@ == m@
            &&& end.aggregated_output@ == m@
            &&& end.formatted_output@ == m@
        },
    }
}

/// A command whose begin event has been issued and whose end event is owed.
/// `finish` takes it by value, so each command gets exactly one end event.
pub struct PendingCommand {
    begin: ExecCommandBeginEvent,
}

impl PendingCommand {
    pub closed spec fn begin_spec(&self) -> ExecCommandBeginEvent {
        self.begin
    }

    pub fn new(
        call_id: String,
        turn_id: String,
        command: Vec<String>,
        cwd: String,
        source: ExecCommandSource,
    ) -> (r: PendingCommand)
        ensures
            r.begin_spec().call_id@ == call_id@,
            r.begin_spec().turn_id@ == turn_id@,
            r.begin_spec().command@ == command@,
            r.begin_spec().cwd@ == cwd@,
            r.begin_spec().source == source,
    {
        PendingCommand { begin: ExecCommandBeginEvent { call_id, turn_id, command, cwd, source } }
    }

    fn copy_begin(&self) -> (r: ExecCommandBeginEvent)
        ensures
            r.call_id@ == self.begin.call_id@,
            r.turn_id@ == self.begin.turn_id@,
            r.command@ == self.begin.command@,
            r.cwd@ == self.begin.cwd@,
            r.source == self.begin.source,
    {
        ExecCommandBeginEvent {
            call_id: self.begin.call_id.clone(),
            turn_id: self.begin.turn_id.clone(),
            command: copy_strings(&self.begin.command),
            cwd: self.begin.cwd.clone(),
            source: self.begin.source,
        }
    }

    /// The event to issue before the command is spawned.
    pub fn begin_event(&self) -> (r: EventMsg)
        ensures
            match r {
                EventMsg::ExecCommandBegin(b) => {
                    &&& b.call_id@ == self.begin_spec().call_id@
                    &&& b.turn_id@ == self.begin_spec().turn_id@
                    &&& b.command@ == self.begin_spec().command@
                    &&& b.cwd@ == self.begin_spec().cwd@
                    &&& b.source == self.begin_spec().source
                },
                _ => false,
            },
    {
        EventMsg::ExecCommandBegin(self.copy_begin())
    }

    /// The end event for a run that ended as `outcome`. A cancelled run
    /// reports exit code -1 and the aborted-by-user message.
    pub fn finish(self, outcome: &ExecOutcome, policy: TruncationPolicy) -> (r:
        ExecCommandEndEvent)
        ensures
            end_matches_begin(r, self.begin_spec()),
            end_reports(r, *outcome, policy.max_chars as nat),
            *outcome == ExecOutcome::Cancelled ==> r.exit_code == CANCELLED_EXIT_CODE
                && r.stderr@.len() > 0 && r.aggregated_output@.len() > 0,
    {
        let ExecCommandBeginEvent { call_id, turn_id, command, cwd, source } = self.begin;
        match outcome {
            ExecOutcome::Completed(o) => ExecCommandEndEvent {
                call_id,
                turn_id,
                command,
                cwd,
                source,
                stdout: truncate_output(o.stdout.as_str(), policy),
                stderr: truncate_output(o.stderr.as_str(), policy),
                aggregated_output: truncate_output(o.aggregated_output.as_str(), policy),
                exit_code: o.exit_code,
                duration_ms: o.duration_ms,
                formatted_output: truncate_output(o.aggregated_output.as_str(), policy),
            },
            ExecOutcome::Cancelled => ExecCommandEndEvent {
                call_id,
                turn_id,
                command,
                cwd,
                source,
                stdout: String::new(),
                stderr: aborted_message_text(),
                aggregated_output: aborted_message_text(),
                exit_code: CANCELLED_EXIT_CODE,
                duration_ms: 0,
                formatted_output: aborted_message_text(),
            },
            ExecOutcome::Failed(m) => ExecCommandEndEvent {
                call_id,
                turn_id,
                command,
                cwd,
                source,
                stdout: String::new(),
                stderr: m.clone(),
                aggregated_output: m.clone(),
                exit_code: CANCELLED_EXIT_CODE,
                duration_ms: 0,
                formatted_output: m.clone(),
            },
        }
    }
}

/// Relies on `uuid::Uuid::new_v4` and its hyphenated `to_string`: a random
/// identifier of 36 characters.
#[verifier::external_body]
fn new_call_id() -> (r: String)
    ensures
        r@.len() == 36,
{
    uuid::Uuid::new_v4().to_string()
}

/// Opens a command under a fresh random call id.
pub fn start_command(
    turn_id: String,
    command: Vec<String>,
    cwd: String,
    source: ExecCommandSource,
) -> (r: PendingCommand)
    ensures
        r.begin_spec().call_id@.len() == 36,
        r.begin_spec().turn_id@ == turn_id@,
        r.begin_spec().command@ == command@,
        r.begin_spec().cwd@ == cwd@,
        r.begin_spec().source == source,
{
    PendingCommand::new(new_call_id(), turn_id, command, cwd, source)
}

/// What the executor does after looking at a running command once.
#[derive(Debug, Clone, Copy, PartialEq, Eq, Structural)]
pub enum PollDecision {
    /// Nothing resolved yet: look again later.
    Wait,
    /// The command exited: collect its output.
    Collect,
    /// The caller cancelled: kill the command and report it cancelled.
    KillCancelled,
    /// The deadline passed: kill the command and report it timed out.
    KillTimedOut,
}

/// One look at a running command. Cancellation, the command's exit and the
/// deadline race; whichever is seen first decides, and a cancellation seen
/// at the same look as the exit still wins, so a cancelled token always
/// ends the call as cancelled.
pub fn poll_step(cancelled: bool, exited: bool, elapsed_ms: u64, timeout_ms: u64) -> (r: PollDecision)
    ensures
        cancelled ==> r == PollDecision::KillCancelled,
        !cancelled && exited ==> r == PollDecision::Collect,
        !cancelled && !exited && elapsed_ms >= timeout_ms ==> r == PollDecision::KillTimedOut,
        !cancelled && !exited && elapsed_ms < timeout_ms ==> r == PollDecision::Wait,
{
    if cancelled {
        PollDecision::KillCancelled
    } else if exited {
        PollDecision::Collect
    } else if elapsed_ms >= timeout_ms {
        PollDecision::KillTimedOut
    } else {
        PollDecision::Wait
    }
}

} // verus!
