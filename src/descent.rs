use vstd::prelude::*;

use crate::score::{improves, is_improvement, not_worse};

verus! {

/// Number of step magnitudes tried in each direction.
pub const STEPS_PER_DIRECTION: usize = 20;

/// Base-two exponent of the smallest step: the magnitudes run by doubling
/// from `2^-14` up to `2^5`.
pub const SMALLEST_STEP_EXPONENT: i32 = -14;

/// One candidate change of a weight: `±2^(SMALLEST_STEP_EXPONENT + index)`.
#[derive(Clone, Copy, Debug, PartialEq, Eq, Structural)]
pub struct Step {
    pub negative: bool,
    pub index: usize,
}

impl Step {
    /// Base-two exponent of the step's magnitude.
    pub fn exponent(&self) -> (r: i32)
        requires
            self.index < STEPS_PER_DIRECTION,
        ensures
            r == SMALLEST_STEP_EXPONENT + self.index,
            -14 <= r <= 5,
    {
        SMALLEST_STEP_EXPONENT + self.index as i32
    }
}

/// A step applied to the weight at `location`.
#[derive(Clone, Copy, Debug, PartialEq, Eq, Structural)]
pub struct Move {
    pub location: usize,
    pub step: Step,
}

/// What the search needs next.
#[derive(Clone, Copy, Debug, PartialEq, Eq, Structural)]
pub enum SweepAction {
    /// The loss with this move applied to the current weights (the weights
    /// are restored afterwards), to be handed to `Sweep::observe`.
    Evaluate(Move),
    /// The sweep has visited every weight.
    Finished,
}

/// One sweep of coordinate descent: for each weight in turn, walk the
/// positive steps and then the negative ones from smallest to largest, and
/// stop a direction as soon as a larger step no longer lowers the loss. The
/// sweep remembers the one move, over all weights, with the lowest loss
/// below the loss at its start.
pub struct Sweep {
    /// Number of weights.
    pub weight_count: usize,
    /// Loss of the weights when the sweep began.
    pub start: Option<u32>,
    /// Weight being varied.
    pub location: usize,
    /// Whether the negative steps are being walked.
    pub negative: bool,
    /// Index of the step to try next in the current direction.
    pub index: usize,
    /// Lowest loss seen so far in the current direction, or `start`.
    pub best_in_direction: Option<u32>,
    /// Loss of `best`, or `start` where there is none.
    pub best_score: Option<u32>,
    /// The best move seen so far that lowers the loss below `start`.
    pub best: Option<Move>,
    /// Every move evaluated so far in this sweep, with its loss.
    pub observed: Ghost<Seq<(Move, Option<u32>)>>,
}

impl Sweep {
    pub open spec fn wf(&self) -> bool {
        &&& self.location <= self.weight_count
        &&& self.index < STEPS_PER_DIRECTION
        &&& self.location == self.weight_count ==> !self.negative && self.index == 0
        &&& match self.best {
            Some(m) => {
                &&& improves(self.best_score, self.start)
                &&& m.location < self.weight_count
                &&& m.step.index < STEPS_PER_DIRECTION
            },
            None => self.best_score == self.start,
        }
        &&& not_worse(self.best_score, self.best_in_direction)
        &&& forall|i: int|
            0 <= i < self.observed@.len() ==> !improves(#[trigger] self.observed@[i].1, self.best_score)
        &&& self.best matches Some(m) ==> self.observed@.contains((m, self.best_score))
        &&& self.observed@.len() + self.evaluations_left() <= self.weight_count * (2
            * STEPS_PER_DIRECTION)
    }

    /// The move the sweep tries next.
    pub open spec fn current(&self) -> Move {
        Move { location: self.location, step: Step { negative: self.negative, index: self.index } }
    }

    /// Upper bound on the number of evaluations the sweep still asks for:
    /// at most `2 * STEPS_PER_DIRECTION` per weight.
    pub open spec fn evaluations_left(&self) -> int {
        (self.weight_count - self.location) * (2 * STEPS_PER_DIRECTION) - (if self.negative {
            STEPS_PER_DIRECTION as int
        } else {
            0
        }) - self.index
    }

    /// The state after the current move was found to give loss `score`.
    pub open spec fn after(self, score: Option<u32>) -> Sweep {
        let lowered = improves(score, self.best_in_direction);
        let (best_score, best) = if lowered && improves(score, self.best_score) {
            (score, Some(self.current()))
        } else {
            (self.best_score, self.best)
        };
        let observed = Ghost(self.observed@.push((self.current(), score)));
        if lowered && self.index + 1 < STEPS_PER_DIRECTION {
            Sweep {
                index: (self.index + 1) as usize,
                best_in_direction: score,
                best_score,
                best,
                observed,
                ..self
            }
        } else if !self.negative {
            Sweep {
                negative: true,
                index: 0,
                best_in_direction: self.start,
                best_score,
                best,
                observed,
                ..self
            }
        } else {
            Sweep {
                location: (self.location + 1) as usize,
                negative: false,
                index: 0,
                best_in_direction: self.start,
                best_score,
                best,
                observed,
                ..self
            }
        }
    }

    /// A sweep at its beginning.
    pub open spec fn new_spec(weight_count: usize, start: Option<u32>) -> Sweep {
        Sweep {
            weight_count,
            start,
            location: 0,
            negative: false,
            index: 0,
            best_in_direction: start,
            best_score: start,
            best: None,
            observed: Ghost(Seq::empty()),
        }
    }

    /// Begins a sweep over `weight_count` weights whose current loss is
    /// `start`.
    pub fn new(weight_count: usize, start: Option<u32>) -> (r: Sweep)
        ensures
            r.wf(),
            r.weight_count == weight_count,
            r.start == start,
            r.location == 0,
            !r.negative,
            r.index == 0,
            r.best_in_direction == start,
            r.best_score == start,
            r.best is None,
            r.observed@.len() == 0,
            r == Sweep::new_spec(weight_count, start),
            r.evaluations_left() == weight_count * (2 * STEPS_PER_DIRECTION),
    {
        Sweep {
            weight_count,
            start,
            location: 0,
            negative: false,
            index: 0,
            best_in_direction: start,
            best_score: start,
            best: None,
            observed: Ghost(Seq::empty()),
        }
    }

    /// The loss to compute next, or `Finished` once every weight was visited.
    pub fn next_action(&self) -> (r: SweepAction)
        requires
            self.wf(),
        ensures
            self.location < self.weight_count ==> r == SweepAction::Evaluate(self.current()),
            self.location >= self.weight_count ==> r == SweepAction::Finished,
            r matches SweepAction::Evaluate(m) ==> m.location < self.weight_count
                && m.step.index < STEPS_PER_DIRECTION,
    {
        if self.location < self.weight_count {
            SweepAction::Evaluate(
                Move {
                    location: self.location,
                    step: Step { negative: self.negative, index: self.index },
                },
            )
        } else {
            SweepAction::Finished
        }
    }

    /// Takes the loss of the move that `next_action` asked for.
    pub fn observe(&mut self, score: Option<u32>)
        requires
            old(self).wf(),
            old(self).location < old(self).weight_count,
        ensures
            *final(self) == old(self).after(score),
            final(self).wf(),
            0 <= final(self).evaluations_left() < old(self).evaluations_left(),
    {
        proof {
            let (w, l) = (self.weight_count as int, self.location as int);
            assert(w - l >= 1 && (w - l) * 40 >= 40 && (w - (l + 1)) * 40 == (w - l) * 40 - 40)
                by (nonlinear_arith)
                requires w > l;
        }
        let ghost before = *self;
        let lowered = is_improvement(score, self.best_in_direction);
        self.observed = Ghost(self.observed@.push((before.current(), score)));
        if lowered && is_improvement(score, self.best_score) {
            self.best_score = score;
            self.best = Some(
                Move {
                    location: self.location,
                    step: Step { negative: self.negative, index: self.index },
                },
            );
        }
        if lowered && self.index + 1 < STEPS_PER_DIRECTION {
            self.index = self.index + 1;
            self.best_in_direction = score;
        } else if !self.negative {
            self.negative = true;
            self.index = 0;
            self.best_in_direction = self.start;
        } else {
            self.location = self.location + 1;
            self.negative = false;
            self.index = 0;
            self.best_in_direction = self.start;
        }
        proof {
            let n = before.observed@.len();
            assert(self.observed@[n as int] == (before.current(), score));
            if let Some(m) = self.best {
                if !(improves(score, before.best_in_direction) && improves(score, before.best_score)) {
                    let i = choose|i: int| 0 <= i < n && before.observed@[i] == (m, before.best_score);
                    assert(self.observed@[i] == (m, self.best_score));
                }
            }
        }
    }

    /// The move to apply once the sweep is finished, if any lowers the loss;
    /// `None` means the weights are a coordinate-wise local optimum.
    pub fn outcome(&self) -> (r: Option<Move>)
        requires
            self.wf(),
        ensures
            r == self.best,
            r is Some ==> improves(self.best_score, self.start),
    {
        self.best
    }

    /// Loss of the weights once `outcome` is applied.
    pub fn score_after(&self) -> (r: Option<u32>)
        requires
            self.wf(),
        ensures
            r == self.best_score,
            not_worse(r, self.start),
    {
        self.best_score
    }
}

/// What coordinate descent needs next.
#[derive(Clone, Copy, Debug, PartialEq, Eq, Structural)]
pub enum DescentAction {
    /// The loss with this move applied to the current weights (the weights
    /// are restored afterwards), to be handed to `Descent::observe`.
    Evaluate(Move),
    /// Apply this move to the weights for good, then call `Descent::applied`.
    Apply(Move),
    /// No single move lowers the loss: the weights are a coordinate-wise
    /// local optimum.
    Converged,
}

/// Coordinate descent: sweeps over the weights, each applying the one best
/// move it found, until a sweep finds none.
pub struct Descent {
    /// The sweep in progress.
    pub sweep: Sweep,
}

impl Descent {
    pub open spec fn wf(&self) -> bool {
        self.sweep.wf()
    }

    /// Whether the current sweep still has moves to evaluate.
    pub open spec fn sweeping(&self) -> bool {
        self.sweep.location < self.sweep.weight_count
    }

    /// Loss of the current weights.
    pub open spec fn score(&self) -> Option<u32> {
        self.sweep.start
    }

    /// Begins descent on `weight_count` weights whose loss is `start`.
    pub fn new(weight_count: usize, start: Option<u32>) -> (r: Descent)
        ensures
            r.wf(),
            r.sweep == Sweep::new_spec(weight_count, start),
    {
        Descent { sweep: Sweep::new(weight_count, start) }
    }

    pub fn next_action(&self) -> (r: DescentAction)
        requires
            self.wf(),
        ensures
            self.sweeping() ==> r == DescentAction::Evaluate(self.sweep.current()),
            !self.sweeping() ==> r == match self.sweep.best {
                Some(m) => DescentAction::Apply(m),
                None => DescentAction::Converged,
            },
            r matches DescentAction::Evaluate(m) ==> m.location < self.sweep.weight_count
                && m.step.index < STEPS_PER_DIRECTION,
            r matches DescentAction::Apply(m) ==> m.location < self.sweep.weight_count
                && m.step.index < STEPS_PER_DIRECTION,
    {
        match self.sweep.next_action() {
            SweepAction::Evaluate(m) => DescentAction::Evaluate(m),
            SweepAction::Finished => match self.sweep.outcome() {
                Some(m) => DescentAction::Apply(m),
                None => DescentAction::Converged,
            },
        }
    }

    /// Takes the loss of the move that `next_action` asked to evaluate.
    pub fn observe(&mut self, score: Option<u32>)
        requires
            old(self).wf(),
            old(self).sweeping(),
        ensures
            final(self).wf(),
            final(self).sweep == old(self).sweep.after(score),
    {
        self.sweep.observe(score);
    }

    /// Records that the move `next_action` asked to apply was applied, and
    /// begins the next sweep from the loss that move was found to give.
    pub fn applied(&mut self)
        requires
            old(self).wf(),
            !old(self).sweeping(),
            old(self).sweep.best is Some,
        ensures
            final(self).wf(),
            final(self).sweep == Sweep::new_spec(old(self).sweep.weight_count, old(self).sweep.best_score),
            improves(final(self).score(), old(self).score()),
    {
        self.sweep = Sweep::new(self.sweep.weight_count, self.sweep.score_after());
    }
}

/// A sweep never raises the loss: the loss it ends with is the loss it began
/// with, or, where it found a move, a strictly smaller one.
pub proof fn lemma_sweep_never_worsens(s: Sweep)
    requires
        s.wf(),
    ensures
        not_worse(s.best_score, s.start),
        s.best is Some <==> improves(s.best_score, s.start),
{
}

/// A sweep evaluates at most `2 * STEPS_PER_DIRECTION` moves per weight, and
/// never has a negative number of evaluations left.
pub proof fn lemma_sweep_cost(s: Sweep)
    requires
        s.wf(),
    ensures
        s.observed@.len() <= s.weight_count * (2 * STEPS_PER_DIRECTION),
{
    assert(STEPS_PER_DIRECTION == 20);
    let (w, l) = (s.weight_count as int, s.location as int);
    assert((w - l) * 40 >= 0) by (nonlinear_arith)
        requires w >= l;
    if l < w {
        assert((w - l) * 40 >= 40) by (nonlinear_arith)
            requires w > l;
    }
}

/// A sweep selects the best improvement: the move it keeps is one it
/// evaluated, with the loss it evaluated it at, and no loss evaluated during
/// the sweep is smaller.
pub proof fn lemma_sweep_keeps_lowest(s: Sweep)
    requires
        s.wf(),
    ensures
        s.best matches Some(m) ==> s.observed@.contains((m, s.best_score)),
        forall|i: int|
            0 <= i < s.observed@.len() ==> !improves(#[trigger] s.observed@[i].1, s.best_score),
{
}

} // verus!
