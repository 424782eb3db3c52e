use opentelemetry_stackdriver::shutdown::{count_polls, keep_waiting, Observation, DEFAULT_SHUTDOWN_NANOS};

fn seen(elapsed_nanos: u128, pending: usize) -> Observation {
    Observation { elapsed_nanos, pending }
}

#[test]
fn default_wait_is_five_seconds() {
    assert_eq!(DEFAULT_SHUTDOWN_NANOS, std::time::Duration::from_secs(5).as_nanos());
}

#[test]
fn waits_only_with_time_left_and_batches_pending() {
    assert!(keep_waiting(100, 0, 1));
    assert!(keep_waiting(100, 99, usize::MAX));
    assert!(!keep_waiting(100, 100, 1));
    assert!(!keep_waiting(100, 101, 1));
    assert!(!keep_waiting(100, 0, 0));
    assert!(!keep_waiting(0, 0, 1));
}

#[test]
fn shutdown_returns_when_the_count_reaches_zero() {
    let looks = vec![seen(1, 3), seen(2, 2), seen(3, 1), seen(4, 0), seen(5, 0), seen(200, 0)];
    assert_eq!(count_polls(100, &looks), 3);
    assert!(looks[3].elapsed_nanos < 100);
}

#[test]
fn shutdown_returns_at_the_deadline_when_work_never_ends() {
    let looks = vec![seen(10, 2), seen(50, 2), seen(99, 2), seen(100, 2), seen(150, 2)];
    assert_eq!(count_polls(100, &looks), 3);
    let late = vec![seen(10, 1), seen(120, 1), seen(130, 1)];
    assert_eq!(count_polls(100, &late), 1);
}

#[test]
fn shutdown_with_nothing_pending_returns_at_once() {
    assert_eq!(count_polls(100, &vec![seen(0, 0), seen(1, 5)]), 0);
    assert_eq!(count_polls(100, &Vec::new()), 0);
    assert_eq!(count_polls(0, &vec![seen(0, 5)]), 0);
}

#[test]
fn shutdown_waits_through_all_it_has_seen() {
    let looks = vec![seen(1, 1), seen(2, 1)];
    assert_eq!(count_polls(100, &looks), 2);
}
