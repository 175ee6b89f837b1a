use crosstown::limiter::RateLimiter;

#[test]
fn cap_is_enforced_inside_window() {
    let mut lim = RateLimiter::new(100, 60);
    for i in 0..100u64 {
        assert!(lim.check_and_record(i));
    }
    assert!(!lim.check_and_record(59_999));
}

#[test]
fn admits_again_after_window_passes() {
    let mut lim = RateLimiter::new(100, 60);
    for _ in 0..100 {
        assert!(lim.check_and_record(0));
    }
    assert!(!lim.check_and_record(59_999));
    assert!(lim.check_and_record(60_001));
}

#[test]
fn zero_cap_rejects_everything() {
    let mut lim = RateLimiter::new(0, 60);
    assert!(!lim.check_and_record(0));
    assert!(!lim.check_and_record(100_000));
}

#[test]
fn rejection_is_not_recorded() {
    let mut lim = RateLimiter::new(1, 60);
    assert!(lim.check_and_record(0));
    assert!(!lim.check_and_record(1));
    assert!(!lim.check_and_record(2));
    assert!(lim.check_and_record(60_000));
}

#[test]
fn pruning_is_per_timestamp() {
    let mut lim = RateLimiter::new(2, 60);
    assert!(lim.check_and_record(0));
    assert!(lim.check_and_record(30_000));
    assert!(!lim.check_and_record(59_000));
    assert!(lim.check_and_record(60_000));
    assert!(!lim.check_and_record(60_001));
}
