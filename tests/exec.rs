use agent_core::exec::{
    poll_step, start_command, ExecOutcome, ExecOutput, PendingCommand, PollDecision, TruncationPolicy,
    CANCELLED_EXIT_CODE,
};
use agent_core::protocol::{EventMsg, ExecCommandSource};
use agent_core::tools::{FunctionCallError, ToolKind, ToolPayload, ToolRegistry};

fn pending(id: &str) -> PendingCommand {
    PendingCommand::new(
        id.to_string(),
        "turn-1".to_string(),
        vec!["git".to_string(), "status".to_string()],
        "/repo".to_string(),
        ExecCommandSource::SddGit,
    )
}

#[test]
fn begin_and_end_share_call_id() {
    let p = pending("call-1");
    let begin = p.begin_event();
    let end = p.finish(
        &ExecOutcome::Completed(ExecOutput {
            exit_code: 0,
            stdout: "abcdef".to_string(),
            stderr: String::new(),
            aggregated_output: "abcdef".to_string(),
            duration_ms: 12,
            timed_out: false,
        }),
        TruncationPolicy { max_chars: 4 },
    );
    let EventMsg::ExecCommandBegin(b) = begin else { panic!("expected begin event") };
    assert_eq!(b.call_id, end.call_id);
    assert_eq!(b.command, end.command);
    assert_eq!(b.cwd, end.cwd);
    assert_eq!(end.stdout, "abcd");
    assert_eq!(end.aggregated_output, "abcd");
    assert_eq!(end.formatted_output, "abcd");
    assert_eq!(end.duration_ms, 12);
}

#[test]
fn cancellation_reports_sentinel_exit_code() {
    let end = pending("call-2").finish(&ExecOutcome::Cancelled, TruncationPolicy { max_chars: 100 });
    assert_eq!(end.exit_code, CANCELLED_EXIT_CODE);
    assert_eq!(end.exit_code, -1);
    assert_eq!(end.stderr, "command aborted by user");
    assert_eq!(end.aggregated_output, "command aborted by user");
    assert!(end.stdout.is_empty());
    assert_eq!(end.call_id, "call-2");
}

#[test]
fn spawn_failure_reports_its_message() {
    let end = pending("call-3").finish(&ExecOutcome::Failed("no such file".to_string()), TruncationPolicy { max_chars: 1 });
    assert_eq!(end.exit_code, -1);
    assert_eq!(end.stderr, "no such file");
    assert_eq!(end.formatted_output, "no such file");
}

#[test]
fn started_commands_get_fresh_ids() {
    let a = start_command("t".to_string(), vec!["ls".to_string()], "/".to_string(), ExecCommandSource::Agent);
    let b = start_command("t".to_string(), vec!["ls".to_string()], "/".to_string(), ExecCommandSource::Agent);
    let (EventMsg::ExecCommandBegin(x), EventMsg::ExecCommandBegin(y)) = (a.begin_event(), b.begin_event()) else {
        panic!("expected begin events")
    };
    assert_eq!(x.call_id.len(), 36);
    assert_ne!(x.call_id, y.call_id);
}

#[test]
fn registry_rejects_unknown_tools_and_mismatched_payloads() {
    let mut registry = ToolRegistry::new();
    registry.register("batches_read_file".to_string(), ToolKind::Function);
    let function = ToolPayload::Function { arguments: "{}".to_string() };
    let custom = ToolPayload::Custom { input: "x".to_string() };
    assert_eq!(registry.check_call("batches_read_file", &function), Ok(ToolKind::Function));
    assert!(matches!(registry.check_call("batches_read_file", &custom), Err(FunctionCallError::RespondToModel(_))));
    assert!(matches!(registry.check_call("nope", &function), Err(FunctionCallError::RespondToModel(_))));
}

#[test]
fn cancellation_wins_the_race() {
    assert_eq!(poll_step(true, true, 0, 10), PollDecision::KillCancelled);
    assert_eq!(poll_step(false, true, 99, 10), PollDecision::Collect);
    assert_eq!(poll_step(false, false, 10, 10), PollDecision::KillTimedOut);
    assert_eq!(poll_step(false, false, 9, 10), PollDecision::Wait);
}
