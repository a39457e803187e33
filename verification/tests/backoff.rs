use mr_prober::auto::strategy::BackoffStrategy;

/// A schedule with `n` attempts and base delay `d` yields `n` successive
/// delays, each at least the previous, then reports exhaustion on the call
/// after them; a reset restores the first delay.
#[test]
fn backoff_growth_and_exhaustion() {
    let attempts = 4u32;
    let base = 3u32;
    let mut backoff = BackoffStrategy::new(attempts, base);

    let mut delays = Vec::new();
    for _ in 0..attempts {
        let d = backoff.next_sleep().expect("attempts are not exhausted yet");
        if let Some(&previous) = delays.last() {
            assert!(d >= previous);
        }
        delays.push(d);
    }

    assert_eq!(delays, vec![3, 6, 12, 24]);
    assert_eq!(backoff.next_sleep(), None);
    assert_eq!(backoff.next_sleep(), None);

    backoff.reset();
    assert_eq!(backoff.next_sleep(), Some(3));
}

/// A schedule allowing no attempts is exhausted from the start.
#[test]
fn backoff_zero_attempts() {
    let mut backoff = BackoffStrategy::new(0, 5);
    assert_eq!(backoff.next_sleep(), None);
}

/// Doubling saturates: once a delay reaches the largest representable
/// number of seconds, later attempts stay there instead of overflowing.
#[test]
fn backoff_saturates() {
    let mut backoff = BackoffStrategy::new(70, 1);

    let mut previous = 0u64;
    let mut last = 0u64;
    for _ in 0..70 {
        let d = backoff.next_sleep().unwrap();
        assert!(d >= previous);
        previous = d;
        last = d;
    }

    assert_eq!(last, u64::MAX);
}
