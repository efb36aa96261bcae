//! The typed, append-only event stream that a session emits.

use vstd::prelude::*;
use crate::token_usage::TokenUsage;

verus! {

/// What issued a shell command.
#[derive(Debug, Clone, Copy, PartialEq, Eq, Structural)]
pub enum ExecCommandSource {
    Agent,
    UserShell,
    SddGit,
}

/// Issued before a command is spawned.
#[derive(Debug, Clone, PartialEq, Eq)]
pub struct ExecCommandBeginEvent {
    pub call_id: String,
    pub turn_id: String,
    pub command: Vec<String>,
    pub cwd: String,
    pub source: ExecCommandSource,
}

/// Issued once a command completed, failed or was cancelled.
#[derive(Debug, Clone, PartialEq, Eq)]
pub struct ExecCommandEndEvent {
    pub call_id: String,
    pub turn_id: String,
    pub command: Vec<String>,
    pub cwd: String,
    pub source: ExecCommandSource,
    pub stdout: String,
    pub stderr: String,
    pub aggregated_output: String,
    pub exit_code: i32,
    pub duration_ms: u64,
    pub formatted_output: String,
}

/// One event of the stream.
#[derive(Debug, Clone, PartialEq, Eq)]
pub enum EventMsg {
    TaskStarted { model_context_window: Option<i64> },
    ExecCommandBegin(ExecCommandBeginEvent),
    ExecCommandEnd(ExecCommandEndEvent),
    Warning(String),
    Error(String),
    TokenCount(TokenUsage),
    Compacted(String),
    BackgroundEvent(String),
    TurnComplete,
    ShutdownComplete,
}

/// Whether `e` is the begin event of call `id`.
pub open spec fn is_begin_of(e: EventMsg, id: Seq<char>) -> bool {
    match e {
        EventMsg::ExecCommandBegin(b) => b.call_id@ == id,
        _ => false,
    }
}

/// Whether `e` is the end event of call `id`.
pub open spec fn is_end_of(e: EventMsg, id: Seq<char>) -> bool {
    match e {
        EventMsg::ExecCommandEnd(b) => b.call_id@ == id,
        _ => false,
    }
}

/// How many begin events of call `id` the stream holds.
pub open spec fn count_begins(s: Seq<EventMsg>, id: Seq<char>) -> nat
    decreases s.len(),
{
    if s.len() == 0 {
        0
    } else {
        count_begins(s.drop_last(), id) + if is_begin_of(s.last(), id) {
            1nat
        } else {
            0nat
        }
    }
}

/// How many end events of call `id` the stream holds.
pub open spec fn count_ends(s: Seq<EventMsg>, id: Seq<char>) -> nat
    decreases s.len(),
{
    if s.len() == 0 {
        0
    } else {
        count_ends(s.drop_last(), id) + if is_end_of(s.last(), id) {
            1nat
        } else {
            0nat
        }
    }
}

/// Whether no event of the stream belongs to call `id`.
pub open spec fn mentions_none(s: Seq<EventMsg>, id: Seq<char>) -> bool {
    forall|i: int| 0 <= i < s.len() ==> !is_begin_of(#[trigger] s[i], id) && !is_end_of(s[i], id)
}

proof fn lemma_counts_zero(s: Seq<EventMsg>, id: Seq<char>)
    requires
        mentions_none(s, id),
    ensures
        count_begins(s, id) == 0,
        count_ends(s, id) == 0,
    decreases s.len(),
{
    if s.len() > 0 {
        assert(mentions_none(s.drop_last(), id)) by {
            assert forall|i: int| 0 <= i < s.drop_last().len() implies !is_begin_of(
                #[trigger] s.drop_last()[i],
                id,
            ) && !is_end_of(s.drop_last()[i], id) by {
                assert(s.drop_last()[i] == s[i]);
            }
        }
        lemma_counts_zero(s.drop_last(), id);
        assert(s.last() == s[s.len() - 1]);
    }
}

proof fn lemma_counts_append(a: Seq<EventMsg>, b: Seq<EventMsg>, id: Seq<char>)
    ensures
        count_begins(a + b, id) == count_begins(a, id) + count_begins(b, id),
        count_ends(a + b, id) == count_ends(a, id) + count_ends(b, id),
    decreases b.len(),
{
    if b.len() == 0 {
        assert(a + b =~= a);
    } else {
        lemma_counts_append(a, b.drop_last(), id);
        assert((a + b).drop_last() =~= a + b.drop_last());
        assert((a + b).last() == b.last());
    }
}

/// A command's events pair up: where neither the events before its begin
/// event nor those between its begin and end events belong to its call id,
/// the stream holds exactly one begin and one end event of that id, and the
/// begin event comes first.
pub proof fn lemma_command_events_paired(
    before: Seq<EventMsg>,
    between: Seq<EventMsg>,
    begin: ExecCommandBeginEvent,
    end: ExecCommandEndEvent,
)
    requires
        mentions_none(before, begin.call_id@),
        mentions_none(between, begin.call_id@),
        end.call_id@ == begin.call_id@,
    ensures
        ({
            let log = before.push(EventMsg::ExecCommandBegin(begin)) + between.push(
                EventMsg::ExecCommandEnd(end),
            );
            &&& count_begins(log, begin.call_id@) == 1
            &&& count_ends(log, begin.call_id@) == 1
            &&& forall|i: int, j: int|
                0 <= i < log.len() && 0 <= j < log.len() && is_begin_of(
                    #[trigger] log[i],
                    begin.call_id@,
                ) && is_end_of(#[trigger] log[j], begin.call_id@) ==> i < j
        }),
{
    let id = begin.call_id@;
    let b = EventMsg::ExecCommandBegin(begin);
    let e = EventMsg::ExecCommandEnd(end);
    let first = before.push(b);
    let second = between.push(e);
    let log = first + second;
    lemma_counts_zero(before, id);
    lemma_counts_zero(between, id);
    assert(first.drop_last() =~= before);
    assert(second.drop_last() =~= between);
    lemma_counts_append(first, second, id);
    assert forall|i: int, j: int|
        0 <= i < log.len() && 0 <= j < log.len() && is_begin_of(#[trigger] log[i], id)
            && is_end_of(#[trigger] log[j], id) implies i < j by {
        if i >= first.len() {
            assert(log[i] == second[i - first.len()]);
            if i - first.len() < between.len() {
                assert(second[i - first.len()] == between[i - first.len()]);
            }
        }
        if j < first.len() {
            assert(log[j] == first[j]);
            if j < before.len() {
                assert(first[j] == before[j]);
            }
        }
    }
}

} // verus!
