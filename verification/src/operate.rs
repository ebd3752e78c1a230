use vstd::prelude::*;

verus! {

/// What applying one change to the workspace gave.
#[derive(Debug, Clone, Copy, PartialEq, Eq, Structural)]
pub enum ChangeOutcome {
    /// The change was applied.
    Applied,
    /// The change could not be applied yet: its parent folder is not there.
    MissingParent,
    /// The change failed for another reason.
    Failed,
}

/// What the driver of a batch of changes has to do next. Changes are named
/// by their position in the batch handed to [`OperateChanges::new`].
#[derive(Debug, PartialEq, Eq)]
pub enum OperateStep {
    /// Apply this change and report its outcome.
    Operate(usize),
    /// Every change of the batch has been applied.
    Finished,
    /// A whole pass applied none of these changes, which all miss their parent.
    Stuck(Vec<usize>),
    /// This change failed for another reason than a missing parent.
    Aborted(usize),
}

/// Applies a batch of changes in passes: a change whose parent is missing is
/// retried in the next pass, after the changes that may create that parent,
/// for as long as a pass makes progress.
pub struct OperateChanges {
    /// The changes of the current pass.
    changes: Vec<usize>,
    /// How many changes of the current pass have been operated.
    position: usize,
    /// The changes of the current pass deferred to the next one.
    remaining: Vec<usize>,
    /// Whether the batch has ended.
    halted: bool,
    /// For each change operated in the current pass, whether it was deferred.
    kept: Ghost<Seq<bool>>,
    /// The changes applied so far, in order.
    applied: Ghost<Seq<usize>>,
    /// The batch as it was handed over.
    initial: Ghost<Seq<usize>>,
}

/// The changes of `pass` whose flag in `kept` is set, in their order.
spec fn kept_changes(pass: Seq<usize>, kept: Seq<bool>) -> Seq<usize>
    decreases kept.len(),
{
    if kept.len() == 0 {
        Seq::empty()
    } else {
        let before = kept_changes(pass, kept.drop_last());
        if kept.last() {
            before.push(pass[kept.len() - 1])
        } else {
            before
        }
    }
}

proof fn lemma_kept_changes_push(pass: Seq<usize>, kept: Seq<bool>, b: bool)
    ensures
        kept_changes(pass, kept.push(b)) == (if b {
            kept_changes(pass, kept).push(pass[kept.len() as int])
        } else {
            kept_changes(pass, kept)
        }),
{
    assert(kept.push(b).drop_last() =~= kept);
}

/// At most every change is kept, and only when every one is kept does the
/// result reproduce the pass.
proof fn lemma_kept_changes_len(pass: Seq<usize>, kept: Seq<bool>)
    requires
        kept.len() <= pass.len(),
    ensures
        kept_changes(pass, kept).len() <= kept.len(),
        kept_changes(pass, kept).len() == kept.len() ==> kept_changes(pass, kept) =~= pass.take(
            kept.len() as int,
        ),
    decreases kept.len(),
{
    if kept.len() > 0 {
        lemma_kept_changes_len(pass, kept.drop_last());
        let n: int = kept.len() as int;
        if kept_changes(pass, kept).len() == kept.len() {
            assert(pass.take(n - 1).push(pass[n - 1]) =~= pass.take(n));
        }
    }
}

/// `k + (k - 1) + ... + 1`, the most outcomes a batch of `k` changes needs.
pub open spec fn triangle(k: int) -> nat
    decreases k,
{
    if k <= 0 {
        0
    } else {
        (k + triangle(k - 1)) as nat
    }
}

proof fn lemma_triangle_monotonic(a: int, b: int)
    requires
        a <= b,
    ensures
        triangle(a) <= triangle(b),
    decreases b - a,
{
    if a < b {
        lemma_triangle_monotonic(a, b - 1);
    }
}

impl OperateChanges {
    pub closed spec fn pass(&self) -> Seq<usize> {
        self.changes@
    }

    pub closed spec fn position(&self) -> nat {
        self.position as nat
    }

    pub closed spec fn deferred(&self) -> Seq<usize> {
        self.remaining@
    }

    pub closed spec fn applied(&self) -> Seq<usize> {
        self.applied@
    }

    pub closed spec fn initial(&self) -> Seq<usize> {
        self.initial@
    }

    pub closed spec fn halted(&self) -> bool {
        self.halted
    }

    /// A change of the current pass awaits its outcome.
    pub open spec fn awaiting(&self) -> bool {
        !self.halted() && self.position() < self.pass().len()
    }

    /// The change whose outcome is awaited.
    pub open spec fn current(&self) -> usize {
        self.pass()[self.position() as int]
    }

    /// The changes that have not been applied: those deferred in this pass,
    /// then those not yet operated in it.
    pub open spec fn pending(&self) -> Seq<usize> {
        self.deferred() + self.pass().skip(self.position() as int)
    }

    /// A bound on the outcomes still to be recorded: the rest of this pass,
    /// then passes that each hold at least one change fewer than the last.
    pub open spec fn outcome_budget(&self) -> nat {
        ((self.pass().len() - self.position()) + triangle(self.pass().len() - 1)) as nat
    }

    pub closed spec fn wf(&self) -> bool {
        &&& self.position <= self.changes@.len()
        &&& self.kept@.len() == self.position
        &&& self.remaining@ == kept_changes(self.changes@, self.kept@)
        &&& forall|i: int| 0 <= i < self.changes@.len() ==> self.initial@.contains(#[trigger] self.changes@[i])
        &&& forall|i: int| 0 <= i < self.remaining@.len() ==> self.initial@.contains(#[trigger] self.remaining@[i])
        &&& forall|i: int| 0 <= i < self.applied@.len() ==> self.initial@.contains(#[trigger] self.applied@[i])
        &&& forall|id: usize| #[trigger] self.initial@.contains(id) ==> self.applied@.contains(id)
            || self.remaining@.contains(id) || self.changes@.skip(self.position as int).contains(id)
    }

    /// Starts a batch with `changes`, operated in that order.
    pub fn new(changes: Vec<usize>) -> (s: Self)
        ensures
            s.wf(),
            s.pass() == changes@,
            s.position() == 0,
            s.deferred() == Seq::<usize>::empty(),
            s.applied() == Seq::<usize>::empty(),
            s.initial() == changes@,
            !s.halted(),
            s.outcome_budget() == triangle(changes@.len() as int),
    {
        let ghost initial = changes@;
        let s = OperateChanges {
            changes,
            position: 0,
            remaining: Vec::new(),
            halted: false,
            kept: Ghost(Seq::empty()),
            applied: Ghost(Seq::empty()),
            initial: Ghost(initial),
        };
        assert(s.changes@.skip(0) =~= s.changes@);
        s
    }

    /// The first thing to do with a batch that has just been started.
    pub fn begin(&self) -> (step: OperateStep)
        requires
            self.wf(),
            self.position() == 0,
            !self.halted(),
        ensures
            self.pass().len() == 0 ==> step == OperateStep::Finished,
            self.pass().len() > 0 ==> step == OperateStep::Operate(self.pass()[0]),
    {
        if self.changes.len() == 0 {
            OperateStep::Finished
        } else {
            OperateStep::Operate(self.changes[0])
        }
    }

    /// Records the outcome of the awaited change and says what comes next.
    /// A failure other than a missing parent ends the batch at once. At the
    /// end of a pass the batch is finished when nothing was deferred, stuck
    /// when every change of the pass was deferred, and otherwise goes on with
    /// a new pass over the deferred changes, in their order.
    pub fn record(&mut self, outcome: ChangeOutcome) -> (step: OperateStep)
        requires
            old(self).wf(),
            old(self).awaiting(),
        ensures
            final(self).wf(),
            final(self).initial() == old(self).initial(),
            outcome == ChangeOutcome::Failed ==> {
                &&& step == OperateStep::Aborted(old(self).current())
                &&& final(self).halted()
                &&& final(self).applied() == old(self).applied()
                &&& final(self).pending() == old(self).pending()
            },
            outcome != ChangeOutcome::Failed ==> {
                let cur = old(self).current();
                let deferred = if outcome == ChangeOutcome::MissingParent {
                    old(self).deferred().push(cur)
                } else {
                    old(self).deferred()
                };
                let applied = if outcome == ChangeOutcome::Applied {
                    old(self).applied().push(cur)
                } else {
                    old(self).applied()
                };
                let next = old(self).position() + 1;
                &&& final(self).applied() == applied
                &&& next < old(self).pass().len() ==> {
                    &&& step == OperateStep::Operate(old(self).pass()[next as int])
                    &&& final(self).pass() == old(self).pass()
                    &&& final(self).position() == next
                    &&& final(self).deferred() == deferred
                    &&& !final(self).halted()
                }
                &&& next == old(self).pass().len() && deferred.len() == 0 ==> {
                    &&& step == OperateStep::Finished
                    &&& final(self).halted()
                    &&& final(self).pending() == Seq::<usize>::empty()
                }
                &&& next == old(self).pass().len() && deferred.len() == old(self).pass().len() ==> {
                    &&& step matches OperateStep::Stuck(ids) && ids@ == deferred
                    &&& deferred == old(self).pass()
                    &&& final(self).halted()
                    &&& final(self).pending() == deferred
                }
                &&& next == old(self).pass().len() && 0 < deferred.len() < old(self).pass().len() ==> {
                    &&& step == OperateStep::Operate(deferred[0])
                    &&& final(self).pass() == deferred
                    &&& final(self).position() == 0
                    &&& final(self).deferred() == Seq::<usize>::empty()
                    &&& !final(self).halted()
                }
            },
            !final(self).halted() ==> final(self).outcome_budget() < old(self).outcome_budget(),
            step is Finished ==> forall|id: usize| #[trigger]
                final(self).initial().contains(id) ==> final(self).applied().contains(id),
    {
        let pos: usize = self.position;
        let n: usize = self.changes.len();
        let current: usize = self.changes[pos];
        let ghost old_pass = self.changes@;
        let ghost old_applied = self.applied@;
        let ghost old_remaining = self.remaining@;
        proof {
            assert(old_pass.skip(pos as int) =~= seq![current] + old_pass.skip(pos + 1));
        }
        match outcome {
            ChangeOutcome::Failed => {
                self.halted = true;
                return OperateStep::Aborted(current);
            },
            ChangeOutcome::MissingParent => {
                proof {
                    lemma_kept_changes_push(self.changes@, self.kept@, true);
                }
                self.remaining.push(current);
                self.kept = Ghost(self.kept@.push(true));
            },
            ChangeOutcome::Applied => {
                proof {
                    lemma_kept_changes_push(self.changes@, self.kept@, false);
                }
                self.applied = Ghost(self.applied@.push(current));
                self.kept = Ghost(self.kept@.push(false));
            },
        }
        assert(pos < n);
        self.position = pos + 1;
        proof {
            assert forall|id: usize| #[trigger] self.initial@.contains(id) implies self.applied@.contains(id)
                || self.remaining@.contains(id) || self.changes@.skip(self.position as int).contains(id) by {
                if old_applied.contains(id) {
                    let k = choose|k: int| 0 <= k < old_applied.len() && old_applied[k] == id;
                    assert(self.applied@[k] == id);
                } else if old_remaining.contains(id) {
                    let k = choose|k: int| 0 <= k < old_remaining.len() && old_remaining[k] == id;
                    assert(self.remaining@[k] == id);
                } else if id == current {
                    if outcome == ChangeOutcome::Applied {
                        assert(self.applied@[self.applied@.len() - 1] == id);
                    } else {
                        assert(self.remaining@[self.remaining@.len() - 1] == id);
                    }
                } else {
                    let k = choose|k: int| 0 <= k < old_pass.skip(pos as int).len() && old_pass.skip(pos as int)[k] == id;
                    assert(self.changes@.skip(self.position as int)[k - 1] == id);
                }
            }
            assert forall|i: int| 0 <= i < self.remaining@.len() implies self.initial@.contains(#[trigger] self.remaining@[i]) by {
                if i < old_remaining.len() {
                    assert(self.remaining@[i] == old_remaining[i]);
                } else {
                    assert(old_pass[pos as int] == current);
                }
            }
            assert forall|i: int| 0 <= i < self.applied@.len() implies self.initial@.contains(#[trigger] self.applied@[i]) by {
                if i < old_applied.len() {
                    assert(self.applied@[i] == old_applied[i]);
                } else {
                    assert(old_pass[pos as int] == current);
                }
            }
        }
        if self.position < self.changes.len() {
            return OperateStep::Operate(self.changes[self.position]);
        }
        proof {
            lemma_kept_changes_len(self.changes@, self.kept@);
            assert(self.changes@.skip(self.position as int) =~= Seq::<usize>::empty());
        }
        if self.remaining.len() == 0 {
            self.halted = true;
            return OperateStep::Finished;
        }
        if self.remaining.len() == self.changes.len() {
            self.halted = true;
            let stuck = self.remaining.clone();
            assert(stuck@ =~= self.remaining@);
            assert(self.changes@.take(self.changes@.len() as int) =~= self.changes@);
            return OperateStep::Stuck(stuck);
        }
        let mut next_pass: Vec<usize> = Vec::new();
        std::mem::swap(&mut next_pass, &mut self.remaining);
        self.changes = next_pass;
        self.position = 0;
        self.kept = Ghost(Seq::empty());
        proof {
            assert(self.changes@.skip(0) =~= self.changes@);
            lemma_triangle_monotonic(self.changes@.len() - 1, old_pass.len() - 2);
        }
        OperateStep::Operate(self.changes[0])
    }
}

/// Every change of a batch is at every moment either applied or pending, and
/// nothing but the changes of the batch is ever applied or pending; a pass
/// defers at most the changes it has operated.
pub proof fn lemma_every_change_accounted(s: &OperateChanges)
    requires
        s.wf(),
    ensures
        s.deferred().len() <= s.position() <= s.pass().len(),
        forall|id: usize| #[trigger]
            s.initial().contains(id) ==> s.applied().contains(id) || s.pending().contains(id),
        forall|id: usize| #[trigger]
            s.applied().contains(id) ==> s.initial().contains(id),
        forall|id: usize| #[trigger]
            s.pending().contains(id) ==> s.initial().contains(id),
{
    lemma_kept_changes_len(s.changes@, s.kept@);
    assert forall|id: usize| #[trigger]
        s.initial().contains(id) implies s.applied().contains(id) || s.pending().contains(id) by {
        if s.deferred().contains(id) {
            let k = choose|k: int| 0 <= k < s.deferred().len() && s.deferred()[k] == id;
            assert(s.pending()[k] == id);
        } else if s.pass().skip(s.position() as int).contains(id) {
            let k = choose|k: int| 0 <= k < s.pass().skip(s.position() as int).len()
                && s.pass().skip(s.position() as int)[k] == id;
            assert(s.pending()[s.deferred().len() + k] == id);
        }
    }
    assert forall|id: usize| #[trigger] s.pending().contains(id) implies s.initial().contains(id) by {
        let k = choose|k: int| 0 <= k < s.pending().len() && s.pending()[k] == id;
        if k < s.deferred().len() {
            assert(s.deferred()[k] == id);
        } else {
            assert(s.pass()[s.position() + k - s.deferred().len()] == id);
        }
    }
}

} // verus!
