use sable::promise_tracker::{PromiseMetricsSummary, PromiseMetricsSummaryTracker};
use sable::runtime_state::{state_from_lowercase, RuntimeState};

#[test]
fn runtime_state_names() {
    assert_eq!(RuntimeState::from_str("run").ok(), Some(RuntimeState::Default));
    assert_eq!(RuntimeState::from_str("Default").ok(), Some(RuntimeState::Default));
    assert_eq!(RuntimeState::from_str("TEST").ok(), Some(RuntimeState::Test));
    assert_eq!(RuntimeState::from_str("bench").ok(), Some(RuntimeState::Bench));
    assert!(RuntimeState::from_str("fmt").is_err());
    assert_eq!(state_from_lowercase("Test"), None);
    for state in [RuntimeState::Default, RuntimeState::Test, RuntimeState::Bench] {
        assert_eq!(RuntimeState::from_str(&state.to_string()).ok(), Some(state));
    }
    assert_eq!(RuntimeState::Bench.to_string(), "bench");
}

#[test]
fn summary_counts_promises() {
    let mut s = PromiseMetricsSummary::with_name("t".to_string());
    assert!(!s.has_pending_promises());
    s.initialized(7);
    s.initialized(9);
    assert!(s.contains(7));
    assert!(s.has_pending_promises());
    s.resolved(7);
    assert!(!s.contains(7));
    assert!(s.contains(9));
    s.resolved(9);
    assert!(!s.has_pending_promises());
    assert_eq!(s.promises_initialized, 2);
    assert_eq!(s.promises_resolved, 2);
    let d = PromiseMetricsSummary::default();
    assert_eq!(d.test_name, "");
}

#[test]
fn tracker_follows_tests() {
    let mut t = PromiseMetricsSummaryTracker::new();
    assert!(t.metrics().is_none());
    t.track("first".to_string());
    t.metrics_mut().initialized(1);
    t.track("second".to_string());
    t.metrics_mut().initialized(2);
    t.metrics_mut().initialized(3);
    t.track("first".to_string());
    assert_eq!(t.metrics().unwrap().test_name, "first");
    assert_eq!(t.per_test().len(), 2);
    match t.metrics_mut_with_promise(3) {
        Some(m) => {
            assert_eq!(m.test_name, "second");
            m.resolved(3);
        },
        None => panic!("promise 3 belongs to the second test"),
    }
    assert!(t.metrics_mut_with_promise(42).is_none());
    let sum = t.aggregate();
    assert_eq!(sum.promises_initialized, 3);
    assert_eq!(sum.promises_resolved, 1);
    assert!(sum.has_pending_promises());
}
