use vstd::prelude::*;

use crate::score::{improves, is_improvement, lemma_not_worse_transitive, not_worse};

verus! {

/// The bookkeeping of random-restart training: each restart randomises the
/// weights and searches from there, and the best loss seen is kept.
pub struct Restarts {
    /// Loss of the weights present when training began.
    pub initial: Option<u32>,
    /// Best loss seen so far; its weights are the ones training ends with.
    pub best: Option<u32>,
    /// Number of restarts to run.
    pub rounds: u32,
    /// Number of restarts finished.
    pub completed: u32,
    /// Loss reached by each finished restart, in order.
    pub recorded: Ghost<Seq<Option<u32>>>,
}

impl Restarts {
    pub open spec fn wf(&self) -> bool {
        &&& self.completed <= self.rounds
        &&& self.recorded@.len() == self.completed
        &&& not_worse(self.best, self.initial)
        &&& forall|i: int|
            0 <= i < self.recorded@.len() ==> !improves(#[trigger] self.recorded@[i], self.best)
        &&& (self.best == self.initial || self.recorded@.contains(self.best))
    }

    /// Starts training from weights whose loss is `initial`.
    pub fn new(initial: Option<u32>, rounds: u32) -> (r: Restarts)
        ensures
            r.wf(),
            r.initial == initial,
            r.best == initial,
            r.rounds == rounds,
            r.completed == 0,
            r.recorded@.len() == 0,
    {
        Restarts { initial, best: initial, rounds, completed: 0, recorded: Ghost(Seq::empty()) }
    }

    /// Whether another restart is due.
    pub fn has_next(&self) -> (r: bool)
        ensures
            r == (self.completed < self.rounds),
    {
        self.completed < self.rounds
    }

    /// Records the loss that one restart reached. Returns whether it beats
    /// the best so far, in which case the caller keeps the current weights as
    /// the best ones.
    pub fn record(&mut self, score: Option<u32>) -> (keep: bool)
        requires
            old(self).wf(),
            old(self).completed < old(self).rounds,
        ensures
            final(self).wf(),
            keep == improves(score, old(self).best),
            final(self).best == if keep { score } else { old(self).best },
            final(self).initial == old(self).initial,
            final(self).rounds == old(self).rounds,
            final(self).completed == old(self).completed + 1,
            final(self).recorded@ == old(self).recorded@.push(score),
    {
        let ghost before = *self;
        let keep = is_improvement(score, self.best);
        self.recorded = Ghost(self.recorded@.push(score));
        assert(self.recorded@[before.recorded@.len() as int] == score);
        if keep {
            proof {
                lemma_not_worse_transitive(score, self.best, self.initial);
            }
            self.best = score;
        }
        self.completed = self.completed + 1;
        proof {
            if !keep && self.best != self.initial {
                let i = choose|i: int| 0 <= i < before.recorded@.len() && before.recorded@[i] == self.best;
                assert(self.recorded@[i] == self.best);
            }
        }
        keep
    }
}

/// Training never ends with a loss worse than the loss of the weights present
/// when it began: the kept loss is that loss or a smaller one, after any
/// number of restarts.
pub proof fn lemma_training_never_worsens(r: Restarts)
    requires
        r.wf(),
    ensures
        not_worse(r.best, r.initial),
{
}

/// Training keeps the best of all restarts: the kept loss is the initial one
/// or one that a restart reached, and no restart reached a smaller one.
pub proof fn lemma_training_keeps_best(r: Restarts)
    requires
        r.wf(),
    ensures
        r.best == r.initial || r.recorded@.contains(r.best),
        forall|i: int| 0 <= i < r.recorded@.len() ==> !improves(#[trigger] r.recorded@[i], r.best),
{
}

} // verus!
