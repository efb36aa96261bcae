//! Conversation compaction: the history is summarised by a model call; where
//! the provider reports that the request overflows its context window, the
//! oldest history item is dropped and the call is made again.

use vstd::prelude::*;
use crate::text::text_of;

verus! {

/// Who wrote a message.
#[derive(Debug, Clone, Copy, PartialEq, Eq, Structural)]
pub enum Role {
    User,
    Assistant,
    Developer,
}

/// One item of a conversation's history.
#[derive(Debug, Clone, PartialEq, Eq)]
pub enum HistoryItem {
    Message { role: Role, text: String },
    TurnContextSnapshot { cwd: String },
    CompactionMarker { summary: String },
}

/// What the provider answered to a summarising request.
#[derive(Debug, Clone, PartialEq, Eq)]
pub enum CompactionResponse {
    Summary(String),
    ContextOverflow,
    Failed(String),
}

/// Where a compaction stands after a response.
#[derive(Debug, Clone, PartialEq, Eq)]
pub enum CompactionOutcome {
    /// The summary replaces the history.
    Applied(String),
    /// The oldest item was dropped; the request is to be made again.
    Retry,
    /// The compaction failed with this message.
    Failed(String),
}

/// A copy of a history item.
pub fn copy_item(item: &HistoryItem) -> (r: HistoryItem)
    ensures
        r == *item,
{
    match item {
        HistoryItem::Message { role, text } => HistoryItem::Message { role: *role, text: text.clone() },
        HistoryItem::TurnContextSnapshot { cwd } => HistoryItem::TurnContextSnapshot { cwd: cwd.clone() },
        HistoryItem::CompactionMarker { summary } => HistoryItem::CompactionMarker {
            summary: summary.clone(),
        },
    }
}

/// A copy of a history.
pub fn copy_history(h: &Vec<HistoryItem>) -> (r: Vec<HistoryItem>)
    ensures
        r@ == h@,
{
    let mut r: Vec<HistoryItem> = Vec::new();
    let mut i: usize = 0;
    while i < h.len()
        invariant
            i <= h.len(),
            r@ == h@.subrange(0, i as int),
        decreases h.len() - i,
    {
        r.push(copy_item(&h[i]));
        assert(r@ =~= h@.subrange(0, i as int + 1));
        i = i + 1;
    }
    assert(r@ =~= h@);
    r
}

/// One compaction: the history still to summarise and how many of the
/// oldest items were dropped so far.
pub struct CompactionRun {
    pub history: Vec<HistoryItem>,
    pub prompt: String,
    pub trimmed: usize,
    pub original: Ghost<Seq<HistoryItem>>,
}

impl CompactionRun {
    /// The history is the original one without its `trimmed` oldest items.
    pub open spec fn wf(&self) -> bool {
        &&& self.trimmed <= self.original@.len()
        &&& self.original@.len() <= usize::MAX
        &&& self.history@ == self.original@.subrange(self.trimmed as int, self.original@.len() as int)
    }

    pub fn start(history: Vec<HistoryItem>, prompt: String) -> (r: CompactionRun)
        ensures
            r.wf(),
            r.original@ == history@,
            r.history@ == history@,
            r.prompt == prompt,
            r.trimmed == 0,
    {
        let ghost h = history@;
        let n = history.len();
        let r = CompactionRun { history, prompt, trimmed: 0, original: Ghost(h) };
        assert(r.history@ =~= h.subrange(0, h.len() as int));
        r
    }

    /// The request to send: the history, then the summarising prompt as a
    /// user message.
    pub fn request(&self) -> (r: Vec<HistoryItem>)
        ensures
            r@ == self.history@.push(HistoryItem::Message { role: Role::User, text: self.prompt }),
    {
        let mut r = copy_history(&self.history);
        r.push(HistoryItem::Message { role: Role::User, text: self.prompt.clone() });
        r
    }

    /// Takes the provider's answer. An overflow drops exactly the oldest
    /// item and asks for a retry, so each retry shrinks the history by one
    /// and the retries end; with nothing left to drop the compaction fails.
    pub fn on_response(&mut self, response: CompactionResponse) -> (r: CompactionOutcome)
        requires
            old(self).wf(),
        ensures
            final(self).wf(),
            final(self).original == old(self).original,
            final(self).prompt == old(self).prompt,
            match response {
                CompactionResponse::Summary(s) => r == CompactionOutcome::Applied(s)
                    && final(self).history@ == old(self).history@ && final(self).trimmed == old(
                    self,
                ).trimmed,
                CompactionResponse::ContextOverflow => if old(self).history@.len() > 0 {
                    &&& r == CompactionOutcome::Retry
                    &&& final(self).history@ == old(self).history@.subrange(
                        1,
                        old(self).history@.len() as int,
                    )
                    &&& final(self).history@.len() == old(self).history@.len() - 1
                    &&& final(self).trimmed == old(self).trimmed + 1
                } else {
                    r is Failed && final(self).history@ == old(self).history@
                        && final(self).trimmed == old(self).trimmed
                },
                CompactionResponse::Failed(m) => r == CompactionOutcome::Failed(m)
                    && final(self).history@ == old(self).history@ && final(self).trimmed == old(
                    self,
                ).trimmed,
            },
    {
        match response {
            CompactionResponse::Summary(s) => CompactionOutcome::Applied(s),
            CompactionResponse::ContextOverflow => {
                if self.history.len() == 0 {
                    return CompactionOutcome::Failed(
                        text_of("the conversation no longer fits the model's context window"),
                    );
                }
                self.history.remove(0);
                self.trimmed = self.trimmed + 1;
                assert(self.history@ =~= self.original@.subrange(
                    self.trimmed as int,
                    self.original@.len() as int,
                ));
                CompactionOutcome::Retry
            },
            CompactionResponse::Failed(m) => CompactionOutcome::Failed(m),
        }
    }
}

/// Each compaction retry drops the oldest item: after `k` retries the
/// history is the original without its `k` oldest items, so at most as many
/// retries as the original has items can happen.
pub proof fn lemma_retries_bounded(run: CompactionRun)
    requires
        run.wf(),
    ensures
        run.history@.len() == run.original@.len() - run.trimmed,
        run.trimmed <= run.original@.len(),
        forall|i: int|
            0 <= i < run.history@.len() ==> #[trigger] run.history@[i] == run.original@[i
                + run.trimmed],
{
}

/// The text length of an item.
pub open spec fn item_chars(item: HistoryItem) -> nat {
    match item {
        HistoryItem::Message { text, .. } => text@.len(),
        HistoryItem::TurnContextSnapshot { cwd } => cwd@.len(),
        HistoryItem::CompactionMarker { summary } => summary@.len(),
    }
}

/// A local estimate of a history's size in tokens: a token for every four
/// characters of each item, rounded up.
pub open spec fn estimated_tokens(h: Seq<HistoryItem>) -> nat
    decreases h.len(),
{
    if h.len() == 0 {
        0
    } else {
        estimated_tokens(h.drop_last()) + (item_chars(h.last()) + 3) / 4
    }
}

fn item_len(item: &HistoryItem) -> (r: usize)
    ensures
        r == item_chars(*item),
{
    match item {
        HistoryItem::Message { text, .. } => text.as_str().unicode_len(),
        HistoryItem::TurnContextSnapshot { cwd } => cwd.as_str().unicode_len(),
        HistoryItem::CompactionMarker { summary } => summary.as_str().unicode_len(),
    }
}

proof fn lemma_estimate_monotone(h: Seq<HistoryItem>, i: int)
    requires
        0 <= i <= h.len(),
    ensures
        estimated_tokens(h.subrange(0, i)) <= estimated_tokens(h),
    decreases h.len() - i,
{
    if i < h.len() {
        lemma_estimate_monotone(h, i + 1);
        assert(h.subrange(0, i + 1).drop_last() =~= h.subrange(0, i));
    } else {
        assert(h.subrange(0, i) =~= h);
    }
}

/// Estimates a history's size locally; it is not zero where any item holds
/// text, whatever the provider reported.
pub fn estimate_tokens(history: &Vec<HistoryItem>) -> (r: u64)
    ensures
        r == if estimated_tokens(history@) > u64::MAX as nat {
            u64::MAX as nat
        } else {
            estimated_tokens(history@)
        },
        (exists|i: int| 0 <= i < history@.len() && item_chars(#[trigger] history@[i]) > 0) ==> r > 0,
{
    let mut total: u64 = 0;
    let mut i: usize = 0;
    while i < history.len()
        invariant
            i <= history.len(),
            total == if estimated_tokens(history@.subrange(0, i as int)) > u64::MAX as nat {
                u64::MAX as nat
            } else {
                estimated_tokens(history@.subrange(0, i as int))
            },
        decreases history.len() - i,
    {
        let n = item_len(&history[i]);
        let add: u64 = (n as u64 / 4) + if n as u64 % 4 != 0 {
            1u64
        } else {
            0u64
        };
        assert(add == (item_chars(history@[i as int]) + 3) / 4);
        assert(history@.subrange(0, i as int + 1).drop_last() =~= history@.subrange(0, i as int));
        total = if total > u64::MAX - add {
            u64::MAX
        } else {
            total + add
        };
        i = i + 1;
    }
    assert(history@.subrange(0, history@.len() as int) =~= history@);
    proof {
        if exists|i: int| 0 <= i < history@.len() && item_chars(#[trigger] history@[i]) > 0 {
            let k = choose|i: int| 0 <= i < history@.len() && item_chars(#[trigger] history@[i]) > 0;
            lemma_estimate_monotone(history@, k + 1);
            let p = history@.subrange(0, k + 1);
            assert(p.last() == history@[k]);
            assert(estimated_tokens(p) >= (item_chars(history@[k]) + 3) / 4);
        }
    }
    total
}

} // verus!
