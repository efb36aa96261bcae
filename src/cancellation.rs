//! Hierarchical cancellation: a session's signal is the parent of each
//! task's signal, which is the parent of each command's. Cancelling a signal
//! cancels every signal below it and no other.

use vstd::prelude::*;

verus! {

/// A tree of cancellation signals. Signal `i` has its parent, if any, at a
/// smaller index; a signal counts as cancelled where it or an ancestor was.
pub struct CancellationTree {
    pub parents: Vec<Option<usize>>,
    pub flags: Vec<bool>,
}

impl CancellationTree {
    pub open spec fn wf(&self) -> bool {
        &&& self.parents@.len() == self.flags@.len()
        &&& forall|i: int|
            0 <= i < self.parents@.len() && #[trigger] self.parents@[i] is Some ==> self.parents@[i]->Some_0
                < i
    }

    /// Whether signal `i` is cancelled: by itself or through an ancestor.
    pub open spec fn cancelled(&self, i: int) -> bool
        decreases i,
    {
        if i < 0 || i >= self.flags@.len() {
            false
        } else if self.flags@[i] {
            true
        } else {
            match self.parents@[i] {
                Some(p) => if p < i {
                    self.cancelled(p as int)
                } else {
                    false
                },
                None => false,
            }
        }
    }

    /// Whether signal `i` is `a` or lies below it.
    pub open spec fn descends(&self, i: int, a: int) -> bool
        decreases i,
    {
        if i < 0 || i >= self.parents@.len() {
            false
        } else if i == a {
            true
        } else {
            match self.parents@[i] {
                Some(p) => if p < i {
                    self.descends(p as int, a)
                } else {
                    false
                },
                None => false,
            }
        }
    }

    pub fn new() -> (r: CancellationTree)
        ensures
            r.wf(),
            r.parents@.len() == 0,
    {
        CancellationTree { parents: Vec::new(), flags: Vec::new() }
    }

    /// Adds a signal under `parent` (a root where `None`), not cancelled
    /// unless its parent is; its index comes back.
    pub fn add(&mut self, parent: Option<usize>) -> (r: usize)
        requires
            old(self).wf(),
            old(self).parents@.len() < usize::MAX,
            parent is Some ==> parent->Some_0 < old(self).parents@.len(),
        ensures
            final(self).wf(),
            r == old(self).parents@.len(),
            final(self).parents@ == old(self).parents@.push(parent),
            final(self).flags@ == old(self).flags@.push(false),
            forall|i: int| 0 <= i < r ==> final(self).cancelled(i) == old(self).cancelled(i),
            final(self).cancelled(r as int) == (parent is Some && old(self).cancelled(
                parent->Some_0 as int,
            )),
    {
        let r = self.parents.len();
        self.parents.push(parent);
        self.flags.push(false);
        assert forall|i: int| 0 <= i < r implies final(self).cancelled(i) == old(self).cancelled(i) by {
            self.lemma_prefix_cancelled(*old(self), i);
        }
        proof {
            if let Some(p) = parent {
                self.lemma_prefix_cancelled(*old(self), p as int);
            }
        }
        r
    }

    proof fn lemma_prefix_cancelled(&self, old_tree: CancellationTree, i: int)
        requires
            old_tree.flags@.len() <= self.flags@.len(),
            old_tree.parents@.len() == old_tree.flags@.len(),
            self.parents@.len() == self.flags@.len(),
            0 <= i < old_tree.flags@.len(),
            forall|k: int| 0 <= k < old_tree.flags@.len() ==> #[trigger] self.flags@[k] == old_tree.flags@[k],
            forall|k: int| 0 <= k < old_tree.flags@.len() ==> #[trigger] self.parents@[k] == old_tree.parents@[k],
        ensures
            self.cancelled(i) == old_tree.cancelled(i),
        decreases i,
    {
        assert(self.parents@[i] == old_tree.parents@[i]);
        if let Some(p) = self.parents@[i] {
            if p < i {
                self.lemma_prefix_cancelled(old_tree, p as int);
            }
        }
    }

    /// Cancels signal `a`, and with it every signal below it.
    pub fn cancel(&mut self, a: usize)
        requires
            old(self).wf(),
            a < old(self).flags@.len(),
        ensures
            final(self).wf(),
            final(self).parents@ == old(self).parents@,
            forall|i: int|
                0 <= i < old(self).flags@.len() ==> #[trigger] final(self).cancelled(i) == (old(
                    self,
                ).cancelled(i) || old(self).descends(i, a as int)),
    {
        let ghost before = *self;
        self.flags.set(a, true);
        assert forall|i: int| 0 <= i < before.flags@.len() implies #[trigger] self.cancelled(i) == (
        before.cancelled(i) || before.descends(i, a as int)) by {
            self.lemma_cancel_effect(before, a as int, i);
        }
    }

    proof fn lemma_cancel_effect(&self, before: CancellationTree, a: int, i: int)
        requires
            before.wf(),
            0 <= a < before.flags@.len(),
            self.parents@ == before.parents@,
            self.flags@ == before.flags@.update(a, true),
            0 <= i < before.flags@.len(),
        ensures
            self.cancelled(i) == (before.cancelled(i) || before.descends(i, a)),
        decreases i,
    {
        if let Some(p) = before.parents@[i] {
            if p < i {
                self.lemma_cancel_effect(before, a, p as int);
            }
        }
    }

    /// Whether signal `i` is cancelled.
    pub fn is_cancelled(&self, i: usize) -> (r: bool)
        requires
            self.wf(),
            i < self.flags@.len(),
        ensures
            r == self.cancelled(i as int),
    {
        let mut k = i;
        while !self.flags[k]
            invariant
                self.wf(),
                k < self.flags@.len(),
                self.cancelled(i as int) == self.cancelled(k as int),
            decreases k,
        {
            match self.parents[k] {
                Some(p) => {
                    assert(self.parents@[k as int] is Some);
                    k = p;
                },
                None => {
                    return false;
                },
            }
        }
        true
    }
}

/// Cancelling a signal leaves every signal that is not below it as it was:
/// cancelling one task never cancels a sibling task.
pub proof fn lemma_cancel_spares_others(
    before: CancellationTree,
    after: CancellationTree,
    a: int,
    b: int,
)
    requires
        before.wf(),
        0 <= a < before.flags@.len(),
        0 <= b < before.flags@.len(),
        !before.descends(b, a),
        forall|i: int|
            0 <= i < before.flags@.len() ==> #[trigger] after.cancelled(i) == (before.cancelled(i)
                || before.descends(i, a)),
    ensures
        after.cancelled(b) == before.cancelled(b),
{
}

} // verus!
