use predictive::descent::{
    Descent, DescentAction, Move, Step, Sweep, SweepAction, SMALLEST_STEP_EXPONENT,
    STEPS_PER_DIRECTION,
};
use predictive::score::is_improvement;

fn run_sweep(weight_count: usize, start: Option<u32>, loss: &dyn Fn(Move) -> Option<u32>) -> (Sweep, Vec<Move>) {
    let mut sweep = Sweep::new(weight_count, start);
    let mut asked: Vec<Move> = Vec::new();
    loop {
        match sweep.next_action() {
            SweepAction::Evaluate(m) => {
                asked.push(m);
                sweep.observe(loss(m));
            }
            SweepAction::Finished => return (sweep, asked),
        }
    }
}

fn mv(location: usize, negative: bool, index: usize) -> Move {
    Move { location, step: Step { negative, index } }
}

#[test]
fn step_exponents_span_the_schedule() {
    assert_eq!(STEPS_PER_DIRECTION, 20);
    assert_eq!(SMALLEST_STEP_EXPONENT, -14);
    assert_eq!(Step { negative: false, index: 0 }.exponent(), -14);
    assert_eq!(Step { negative: true, index: 14 }.exponent(), 0);
    assert_eq!(Step { negative: false, index: 19 }.exponent(), 5);
}

#[test]
fn comparison_of_losses() {
    assert!(is_improvement(Some(1), Some(2)));
    assert!(!is_improvement(Some(2), Some(2)));
    assert!(!is_improvement(Some(3), Some(2)));
    assert!(!is_improvement(None, Some(2)));
    assert!(!is_improvement(Some(1), None));
}

#[test]
fn no_weights_finishes_at_once() {
    let (sweep, asked) = run_sweep(0, Some(10), &|_| Some(0));
    assert!(asked.is_empty());
    assert_eq!(sweep.outcome(), None);
    assert_eq!(sweep.score_after(), Some(10));
}

#[test]
fn flat_loss_stops_each_direction_after_one_step() {
    let (sweep, asked) = run_sweep(3, Some(50), &|_| Some(50));
    assert_eq!(asked.len(), 6);
    assert_eq!(asked[0], mv(0, false, 0));
    assert_eq!(asked[1], mv(0, true, 0));
    assert_eq!(asked[5], mv(2, true, 0));
    assert_eq!(sweep.outcome(), None);
    assert_eq!(sweep.score_after(), Some(50));
}

#[test]
fn walk_continues_while_loss_falls() {
    // Loss falls with the step up to index 3 in the positive direction of weight 1.
    let loss = |m: Move| {
        if m.location == 1 && !m.step.negative && m.step.index <= 3 {
            Some(40 - m.step.index as u32)
        } else {
            Some(100)
        }
    };
    let (sweep, asked) = run_sweep(2, Some(100), &loss);
    assert_eq!(asked.len(), 2 + 5 + 1);
    assert_eq!(asked[2], mv(1, false, 0));
    assert_eq!(asked[6], mv(1, false, 4));
    assert_eq!(asked[7], mv(1, true, 0));
    assert_eq!(sweep.outcome(), Some(mv(1, false, 3)));
    assert_eq!(sweep.score_after(), Some(37));
}

#[test]
fn best_move_over_whole_sweep_is_kept() {
    let loss = |m: Move| match (m.location, m.step.negative, m.step.index) {
        (0, false, 0) => Some(90),
        (1, true, 0) => Some(80),
        (1, true, 1) => Some(85),
        (2, false, 0) => Some(80),
        _ => Some(200),
    };
    let (sweep, _) = run_sweep(3, Some(100), &loss);
    // The tie at location 2 does not replace the earlier move.
    assert_eq!(sweep.outcome(), Some(mv(1, true, 0)));
    assert_eq!(sweep.score_after(), Some(80));
}

#[test]
fn every_step_falling_tries_all_twenty() {
    let loss = |m: Move| {
        if m.step.negative {
            Some(1000)
        } else {
            Some(500 - m.step.index as u32)
        }
    };
    let (sweep, asked) = run_sweep(1, Some(600), &loss);
    assert_eq!(asked.len(), 21);
    assert_eq!(asked[19], mv(0, false, 19));
    assert_eq!(asked[20], mv(0, true, 0));
    assert_eq!(sweep.outcome(), Some(mv(0, false, 19)));
    assert_eq!(sweep.score_after(), Some(481));
}

#[test]
fn not_a_number_never_improves() {
    let (sweep, asked) = run_sweep(2, None, &|_| Some(0));
    assert_eq!(asked.len(), 4);
    assert_eq!(sweep.outcome(), None);
    assert_eq!(sweep.score_after(), None);
    let (sweep, _) = run_sweep(2, Some(5), &|_| None);
    assert_eq!(sweep.outcome(), None);
    assert_eq!(sweep.score_after(), Some(5));
}

#[test]
fn sweep_score_never_rises() {
    for start in [0u32, 3, 17, 100] {
        let loss = |m: Move| Some(((m.location as u32) * 7 + m.step.index as u32 * 3) % 23);
        let (sweep, _) = run_sweep(4, Some(start), &loss);
        let after = sweep.score_after().unwrap();
        assert!(after <= start);
        assert_eq!(sweep.outcome().is_some(), after < start);
    }
}

#[test]
fn descent_applies_best_move_until_converged() {
    // One weight; the loss is |w - 3| in units of 2^-14, with w starting at 0.
    let mut w: i64 = 0;
    let loss = |w: i64| Some(((w - 3 * 16384).abs()) as u32);
    let mut descent = Descent::new(1, loss(w));
    let mut applied: Vec<Move> = Vec::new();
    let mut evaluations: usize = 0;
    loop {
        match descent.next_action() {
            DescentAction::Evaluate(m) => {
                evaluations += 1;
                descent.observe(loss(w + step_units(m.step)));
            }
            DescentAction::Apply(m) => {
                applied.push(m);
                w += step_units(m.step);
                descent.applied();
            }
            DescentAction::Converged => break,
        }
    }
    assert_eq!(w, 3 * 16384);
    assert_eq!(applied, vec![mv(0, false, 15), mv(0, false, 14)]);
    assert_eq!(descent.sweep.start, Some(0));
    assert!(evaluations > 0);
}

fn step_units(step: Step) -> i64 {
    let magnitude: i64 = 1i64 << (step.exponent() - SMALLEST_STEP_EXPONENT);
    if step.negative {
        -magnitude
    } else {
        magnitude
    }
}

#[test]
fn descent_at_local_optimum_converges_at_once() {
    let mut descent = Descent::new(2, Some(7));
    let mut evaluations: usize = 0;
    while let DescentAction::Evaluate(_) = descent.next_action() {
        evaluations += 1;
        descent.observe(Some(7));
    }
    assert_eq!(evaluations, 4);
    assert_eq!(descent.next_action(), DescentAction::Converged);
}
