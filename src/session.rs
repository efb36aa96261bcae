//! The session: owns the conversation history, the event stream and the
//! rollout record, and updates them only at task boundaries.

use vstd::prelude::*;
use crate::compact::{
    estimate_tokens, estimated_tokens, copy_history, CompactionOutcome, CompactionRun, HistoryItem,
    Role,
};
use crate::protocol::EventMsg;
use crate::text::{concat3, push_decimal, text_of};
use crate::token_usage::TokenUsage;

verus! {

/// The warning emitted after every compaction attempt.
pub const COMPACT_WARNING_MESSAGE: &'static str = "Heads up: Long conversations and multiple compactions can cause the model to be less accurate. Start a new conversation when possible to keep conversations small and targeted.";

pub open spec fn compact_warning() -> Seq<char> {
    "Heads up: Long conversations and multiple compactions can cause the model to be less accurate. Start a new conversation when possible to keep conversations small and targeted."@
}

fn compact_warning_text() -> (r: String)
    ensures
        r@ == compact_warning(),
{
    text_of("Heads up: Long conversations and multiple compactions can cause the model to be less accurate. Start a new conversation when possible to keep conversations small and targeted.")
}

/// The header line put before a compaction summary in the history.
pub const SUMMARY_PREFIX: &'static str = "Another language model started to solve this problem and produced a summary of its thinking process. You also have access to the state of the tools that were used by that language model. Use this to build on the work that has already been done and avoid duplicating work. Here is the summary produced by the other language model, use the information in this summary to assist with your own analysis:";

pub open spec fn summary_prefix() -> Seq<char> {
    "Another language model started to solve this problem and produced a summary of its thinking process. You also have access to the state of the tools that were used by that language model. Use this to build on the work that has already been done and avoid duplicating work. Here is the summary produced by the other language model, use the information in this summary to assist with your own analysis:"@
}

/// The history message that carries a summary: the header line, then the
/// summary.
pub open spec fn summary_text(summary: Seq<char>) -> Seq<char> {
    summary_prefix() + seq!['\n'] + summary
}

pub fn summary_message_text(summary: &str) -> (r: String)
    ensures
        r@ == summary_text(summary@),
{
    let r = concat3(
        "Another language model started to solve this problem and produced a summary of its thinking process. You also have access to the state of the tools that were used by that language model. Use this to build on the work that has already been done and avoid duplicating work. Here is the summary produced by the other language model, use the information in this summary to assist with your own analysis:",
        "\n",
        summary,
    );
    proof {
        reveal_strlit("\n");
    }
    assert(r@ =~= summary_text(summary@));
    r
}

/// What a task does, which decides whether its history changes are recorded.
#[derive(Debug, Clone, Copy, PartialEq, Eq, Structural)]
pub enum TaskKind {
    Regular,
    Review,
    Compact,
}

/// One durable record of the rollout.
#[derive(Debug, Clone, PartialEq, Eq)]
pub enum RolloutItem {
    /// Written once for every completed model call.
    TurnContext { cwd: String },
    /// Written once for every successful compaction.
    Compacted { summary: String },
}

/// How many messages of `role` a history holds.
pub open spec fn count_role(h: Seq<HistoryItem>, role: Role) -> nat
    decreases h.len(),
{
    if h.len() == 0 {
        0
    } else {
        count_role(h.drop_last(), role) + match h.last() {
            HistoryItem::Message { role: r, .. } => if r == role {
                1nat
            } else {
                0nat
            },
            _ => 0nat,
        }
    }
}

/// A conversation.
pub struct Session {
    pub cwd: String,
    pub model_context_window: Option<i64>,
    pub history: Vec<HistoryItem>,
    pub events: Vec<EventMsg>,
    pub rollout: Vec<RolloutItem>,
}

/// The token usage a history is estimated at.
pub open spec fn usage_of(tokens: nat) -> TokenUsage {
    let t = if tokens > i64::MAX as nat {
        i64::MAX as int
    } else {
        tokens as int
    };
    TokenUsage {
        input_tokens: t as i64,
        cached_input_tokens: 0,
        output_tokens: 0,
        reasoning_output_tokens: 0,
        total_tokens: t as i64,
    }
}

fn estimated_usage(history: &Vec<HistoryItem>) -> (r: TokenUsage)
    ensures
        r == usage_of(estimated_tokens(history@)),
{
    let e = estimate_tokens(history);
    let t: i64 = if e > i64::MAX as u64 {
        i64::MAX
    } else {
        e as i64
    };
    TokenUsage {
        input_tokens: t,
        cached_input_tokens: 0,
        output_tokens: 0,
        reasoning_output_tokens: 0,
        total_tokens: t,
    }
}

impl Session {
    pub fn new(cwd: String, model_context_window: Option<i64>) -> (r: Session)
        ensures
            r.cwd == cwd,
            r.model_context_window == model_context_window,
            r.history@.len() == 0,
            r.events@.len() == 0,
            r.rollout@.len() == 0,
    {
        Session { cwd, model_context_window, history: Vec::new(), events: Vec::new(), rollout: Vec::new() }
    }

    fn emit(&mut self, event: EventMsg)
        ensures
            final(self).events@ == old(self).events@.push(event),
            final(self).history == old(self).history,
            final(self).rollout == old(self).rollout,
            final(self).cwd == old(self).cwd,
            final(self).model_context_window == old(self).model_context_window,
    {
        self.events.push(event);
    }

    /// Starts a user turn: a start event carrying the context window, the
    /// user's message appended to the history, and the history to send.
    pub fn submit_user_input(&mut self, text: String) -> (r: Vec<HistoryItem>)
        ensures
            final(self).history@ == old(self).history@.push(
                HistoryItem::Message { role: Role::User, text },
            ),
            final(self).events@ == old(self).events@.push(
                EventMsg::TaskStarted { model_context_window: old(self).model_context_window },
            ),
            final(self).rollout == old(self).rollout,
            final(self).cwd == old(self).cwd,
            final(self).model_context_window == old(self).model_context_window,
            r@ == final(self).history@,
    {
        let window = self.model_context_window;
        self.emit(EventMsg::TaskStarted { model_context_window: window });
        self.history.push(HistoryItem::Message { role: Role::User, text });
        copy_history(&self.history)
    }

    /// Completes a model call: the reply, where there is one, joins the
    /// history, one turn-context record joins the rollout, and the turn
    /// ends.
    pub fn complete_model_call(&mut self, reply: Option<String>)
        ensures
            final(self).history@ == match reply {
                Some(t) => old(self).history@.push(
                    HistoryItem::Message { role: Role::Assistant, text: t },
                ),
                None => old(self).history@,
            },
            final(self).rollout@ == old(self).rollout@.push(
                RolloutItem::TurnContext { cwd: old(self).cwd },
            ),
            final(self).events@ == old(self).events@.push(EventMsg::TurnComplete),
            final(self).cwd == old(self).cwd,
            final(self).model_context_window == old(self).model_context_window,
    {
        if let Some(t) = reply {
            self.history.push(HistoryItem::Message { role: Role::Assistant, text: t });
        }
        let cwd = self.cwd.clone();
        self.rollout.push(RolloutItem::TurnContext { cwd });
        self.emit(EventMsg::TurnComplete);
    }

    /// Starts a compaction of the current history with `prompt`.
    pub fn start_compaction(&mut self, prompt: String) -> (r: CompactionRun)
        ensures
            r.wf(),
            r.history@ == old(self).history@,
            r.original@ == old(self).history@,
            r.trimmed == 0,
            r.prompt == prompt,
            final(self).events@ == old(self).events@.push(
                EventMsg::TaskStarted { model_context_window: old(self).model_context_window },
            ),
            final(self).history == old(self).history,
            final(self).rollout == old(self).rollout,
            final(self).cwd == old(self).cwd,
            final(self).model_context_window == old(self).model_context_window,
    {
        let window = self.model_context_window;
        self.emit(EventMsg::TaskStarted { model_context_window: window });
        CompactionRun::start(copy_history(&self.history), prompt)
    }

    /// Ends a compaction. A summary replaces the whole history with one
    /// user message holding the summary header line and the summary, joins the rollout once, and is announced
    /// with a compacted event, a note of the items dropped (where any
    /// were), the fixed warning, a locally estimated token count and the
    /// end of the turn. A failure leaves the history as it was and is
    /// reported with an error, the same warning and the end of the turn.
    pub fn finish_compaction(&mut self, run: &CompactionRun, outcome: CompactionOutcome)
        requires
            !(outcome is Retry),
        ensures
            final(self).cwd == old(self).cwd,
            final(self).model_context_window == old(self).model_context_window,
            match outcome {
                CompactionOutcome::Applied(summary) => {
                    let n = old(self).events@.len() as int;
                    let w = if run.trimmed > 0 {
                        n + 2
                    } else {
                        n + 1
                    };
                    &&& final(self).history@.len() == 1
                    &&& final(self).history@[0] is Message
                    &&& final(self).history@[0]->Message_role == Role::User
                    &&& final(self).history@[0]->Message_text@ == summary_text(summary@)
                    &&& count_role(final(self).history@, Role::Assistant) == 0
                    &&& final(self).rollout@ == old(self).rollout@.push(
                        RolloutItem::Compacted { summary },
                    )
                    &&& final(self).events@.len() == w + 3
                    &&& final(self).events@.subrange(0, n) == old(self).events@
                    &&& final(self).events@[n] == EventMsg::Compacted(summary)
                    &&& run.trimmed > 0 ==> final(self).events@[n + 1] is BackgroundEvent
                    &&& final(self).events@[w] is Warning
                    &&& final(self).events@[w]->Warning_0@ == compact_warning()
                    &&& final(self).events@[w + 1] == EventMsg::TokenCount(
                        usage_of(estimated_tokens(final(self).history@)),
                    )
                    &&& final(self).events@[w + 2] == EventMsg::TurnComplete
                },
                CompactionOutcome::Failed(m) => {
                    &&& final(self).history == old(self).history
                    &&& final(self).rollout == old(self).rollout
                    &&& final(self).events@.len() == old(self).events@.len() + 3
                    &&& final(self).events@.subrange(0, old(self).events@.len() as int) == old(self).events@
                    &&& final(self).events@[old(self).events@.len() as int] == EventMsg::Error(m)
                    &&& final(self).events@[old(self).events@.len() as int + 1] is Warning
                    &&& final(self).events@[old(self).events@.len() as int + 1]->Warning_0@
                        == compact_warning()
                    &&& final(self).events@.last() == EventMsg::TurnComplete
                },
                CompactionOutcome::Retry => true,
            },
    {
        match outcome {
            CompactionOutcome::Applied(summary) => {
                let text = summary_message_text(summary.as_str());
                let ghost item = HistoryItem::Message { role: Role::User, text };
                let mut history: Vec<HistoryItem> = Vec::new();
                history.push(HistoryItem::Message { role: Role::User, text });
                assert(history@ =~= seq![item]);
                assert(history@.drop_last() =~= Seq::<HistoryItem>::empty());
                self.history = history;
                self.rollout.push(RolloutItem::Compacted { summary: summary.clone() });
                self.emit(EventMsg::Compacted(summary));
                if run.trimmed > 0 {
                    let mut note = text_of("Trimmed ");
                    push_decimal(&mut note, run.trimmed as u64);
                    note.append(" older conversation item(s) before compacting so the prompt fits the model context window.");
                    self.emit(EventMsg::BackgroundEvent(note));
                }
                self.emit(EventMsg::Warning(compact_warning_text()));
                let usage = estimated_usage(&self.history);
                self.emit(EventMsg::TokenCount(usage));
                self.emit(EventMsg::TurnComplete);
                assert(self.events@.subrange(0, old(self).events@.len() as int) =~= old(self).events@);
                assert(count_role(self.history@, Role::Assistant) == 0) by {
                    assert(self.history@.drop_last() =~= Seq::<HistoryItem>::empty());
                    assert(count_role(Seq::<HistoryItem>::empty(), Role::Assistant) == 0);
                    assert(self.history@.last() == item);
                }
            },
            CompactionOutcome::Failed(m) => {
                self.emit(EventMsg::Error(m));
                self.emit(EventMsg::Warning(compact_warning_text()));
                self.emit(EventMsg::TurnComplete);
                assert(self.events@.subrange(0, old(self).events@.len() as int) =~= old(self).events@);
            },
            CompactionOutcome::Retry => {},
        }
    }
}

} // verus!
