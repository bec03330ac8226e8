use chess_clock::debounce::{Debouncer, Edge};

#[test]
fn rising_edge_reported_exactly_once() {
    let mut d = Debouncer::new(false);
    assert_eq!(d.update(true), None);
    assert_eq!(d.update(true), None);
    assert_eq!(d.update(true), None);
    assert_eq!(d.update(true), Some(Edge::Rising));
    for _ in 0..20 {
        assert_eq!(d.update(true), None);
    }
}

#[test]
fn falling_edge_reported_exactly_once() {
    let mut d = Debouncer::new(true);
    assert_eq!(d.update(false), None);
    assert_eq!(d.update(false), None);
    assert_eq!(d.update(false), None);
    assert_eq!(d.update(false), Some(Edge::Falling));
    for _ in 0..20 {
        assert_eq!(d.update(false), None);
    }
}

#[test]
fn bouncing_signal_reports_no_edge() {
    let mut d = Debouncer::new(false);
    for _ in 0..10 {
        assert_eq!(d.update(true), None);
        assert_eq!(d.update(false), None);
    }
}

#[test]
fn constant_level_matching_stable_state_reports_nothing() {
    let mut d = Debouncer::new(true);
    for _ in 0..10 {
        assert_eq!(d.update(true), None);
    }
}

#[test]
fn level_queries_follow_the_samples() {
    let mut d = Debouncer::new(false);
    assert!(d.is_low());
    assert!(!d.is_high());
    for _ in 0..4 {
        d.update(true);
    }
    assert!(d.is_high());
    assert!(!d.is_low());
    d.update(false);
    assert!(!d.is_high());
    assert!(!d.is_low());
}
