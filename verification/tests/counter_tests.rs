use song_server::counter::VisitCounter;
use song_server::welcome;

#[test]
fn counter_starts_at_zero() {
    let counter = VisitCounter::new();
    assert_eq!(counter.count, 0);
}

#[test]
fn each_call_reports_the_next_value() {
    let mut counter = VisitCounter::new();
    assert_eq!(counter.increment_count(), "Visit count: 1");
    assert_eq!(counter.increment_count(), "Visit count: 2");
    assert_eq!(counter.increment_count(), "Visit count: 3");
    assert_eq!(counter.count, 3);
}

#[test]
fn serialized_callers_observe_distinct_increasing_counts() {
    let mut counter = VisitCounter::new();
    let mut seen: Vec<String> = Vec::new();
    for _ in 0..25 {
        seen.push(counter.increment_count());
    }
    for k in 0..25usize {
        assert_eq!(seen[k], format!("Visit count: {}", k + 1));
    }
    for a in 0..25usize {
        for b in (a + 1)..25usize {
            assert_ne!(seen[a], seen[b]);
        }
    }
}

#[test]
fn welcome_text_is_fixed() {
    assert_eq!(welcome(), "Welcome to the Rust-powered web server!");
}
