use predictive::restarts::Restarts;

#[test]
fn keeps_best_of_all_rounds() {
    let mut r = Restarts::new(Some(70), 4);
    let mut kept: Vec<bool> = Vec::new();
    for score in [Some(80), Some(60), Some(65), Some(20)] {
        assert!(r.has_next());
        kept.push(r.record(score));
    }
    assert!(!r.has_next());
    assert_eq!(kept, vec![false, true, false, true]);
    assert_eq!(r.best, Some(20));
    assert_eq!(r.completed, 4);
}

#[test]
fn zero_rounds_keep_initial() {
    let r = Restarts::new(Some(9), 0);
    assert!(!r.has_next());
    assert_eq!(r.best, Some(9));
}

#[test]
fn training_never_ends_worse() {
    let mut r = Restarts::new(Some(10), 3);
    for score in [Some(11), None, Some(10)] {
        assert!(!r.record(score));
    }
    assert_eq!(r.best, Some(10));
    assert!(r.best.unwrap() <= r.initial.unwrap());
}

#[test]
fn equal_score_does_not_replace_best() {
    let mut r = Restarts::new(Some(5), 2);
    assert!(r.record(Some(3)));
    assert!(!r.record(Some(3)));
    assert_eq!(r.best, Some(3));
}
