use sahl::backoff::{Backoff, NANOS_PER_MILLI, NANOS_PER_SEC};

fn standard() -> Backoff {
    Backoff::standard(0x2545_F491_4F6C_DD1D)
}

fn secs(n: u128) -> u128 {
    n * NANOS_PER_SEC
}

#[test]
fn the_first_delay_is_around_the_base() {
    let mut backoff = standard();
    let delay = backoff.next_delay();
    assert!(delay >= 500 * NANOS_PER_MILLI, "at least half the base");
    assert!(delay <= secs(1));
}

#[test]
fn delays_grow_and_then_stop_at_the_cap() {
    // Capped because a till backed off to an hour looks broken, and it is holding the only copy
    // of those sales.
    let mut backoff = standard();
    for _ in 0..40 {
        let delay = backoff.next_delay();
        assert!(delay <= secs(300), "never exceeds the cap");
    }
    assert!(backoff.next_delay() >= secs(150), "and settles at the cap, not at zero");
}

#[test]
fn a_long_run_of_failures_does_not_wrap_to_zero() {
    // The shift would overflow around attempt 64 and silently produce no delay — hammering the
    // server exactly when it is least able to cope.
    let mut backoff = standard();
    for _ in 0..200 {
        backoff.next_delay();
    }
    assert!(backoff.next_delay() >= secs(150));
}

#[test]
fn success_returns_to_the_base_delay() {
    let mut backoff = standard();
    for _ in 0..10 {
        backoff.next_delay();
    }
    backoff.reset();

    assert_eq!(backoff.attempts(), 0);
    assert!(backoff.next_delay() <= secs(1));
}

#[test]
fn two_tills_recovering_together_do_not_retry_in_lockstep() {
    // The scenario this exists for: an area outage ends and every till reconnects at once.
    let mut first = Backoff::standard(1);
    let mut second = Backoff::standard(999_331);

    for _ in 0..5 {
        first.next_delay();
        second.next_delay();
    }

    assert_ne!(first.next_delay(), second.next_delay(), "different seeds must diverge");
}

#[test]
fn jitter_never_removes_more_than_half_the_wait() {
    // Backoff still has to mean backoff. Warm past the cap first: doubling only reaches the
    // ceiling around attempt 9.
    let mut backoff = standard();
    for _ in 0..12 {
        backoff.next_delay();
    }
    for _ in 0..20 {
        let delay = backoff.next_delay();
        assert!(delay >= secs(150), "at least half of the 300s cap");
    }
}

#[test]
fn the_same_seed_replays_the_same_schedule() {
    // Determinism is what makes this testable at all.
    let mut first = Backoff::standard(42);
    let mut second = Backoff::standard(42);
    for _ in 0..10 {
        assert_eq!(first.next_delay(), second.next_delay());
    }
}

#[test]
fn each_failure_counts_one_attempt() {
    let mut backoff = standard();
    assert_eq!(backoff.attempts(), 0);
    backoff.next_delay();
    backoff.next_delay();
    assert_eq!(backoff.attempts(), 2);
}

#[test]
fn the_second_delay_lies_between_one_and_two_seconds() {
    let mut backoff = standard();
    backoff.next_delay();
    let delay = backoff.next_delay();
    assert!(delay >= secs(1));
    assert!(delay <= secs(2));
}

#[test]
fn jitter_comes_in_whole_milliseconds() {
    let mut backoff = Backoff::new(secs(10), secs(10), 7);
    let delay = backoff.next_delay();
    assert_eq!(delay % NANOS_PER_MILLI, 0);
    assert!(delay >= secs(5) && delay <= secs(10));
}

#[test]
fn a_zero_base_never_waits() {
    let mut backoff = Backoff::new(0, secs(300), 9);
    for _ in 0..5 {
        assert_eq!(backoff.next_delay(), 0);
    }
}

#[test]
fn a_history_of_failures_and_successes_replays_from_its_seed() {
    let history = [true, true, false, true, true, true, false, false, true];
    let mut first = Backoff::standard(9);
    let mut second = Backoff::standard(9);
    let mut drawn = Vec::new();
    for &failed in &history {
        if failed {
            let delay = first.next_delay();
            assert_eq!(delay, second.next_delay());
            drawn.push(delay);
        } else {
            first.reset();
            second.reset();
        }
        assert_eq!(first.attempts(), second.attempts());
    }
    assert_eq!(drawn.len(), 6);
    // Right after a reset the wait is back to the base: half a second to a second.
    assert!(drawn[2] >= NANOS_PER_SEC / 2 && drawn[2] <= NANOS_PER_SEC);
    assert!(drawn[5] >= NANOS_PER_SEC / 2 && drawn[5] <= NANOS_PER_SEC);
}
