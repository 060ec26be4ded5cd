use ratelimit_meter::algorithms::Algorithm;
use ratelimit_meter::algorithms::NonConformance;
use ratelimit_meter::algorithms::RateLimitState;
use ratelimit_meter::jitter::Jitter;
use ratelimit_meter::jitter::JitterResultExt;
use ratelimit_meter::test_utilities::current_moment;
use ratelimit_meter::thread_safety::ThreadsafeWrapper;
use ratelimit_meter::DirectRateLimiter;
use ratelimit_meter::InconsistentCapacity;
use ratelimit_meter::KeyedRateLimiter;
use ratelimit_meter::LeakyBucket;
use ratelimit_meter::Nanos;
use ratelimit_meter::GCRA;

#[test]
fn keyed_gcra_independence() {
    // a fresh capacity-1 GCRA bucket admits two cells before rejecting;
    // heavy use of one key must not eat into the other key's burst
    let mut lim: KeyedRateLimiter<GCRA> = KeyedRateLimiter::new(1, Nanos::from_secs(1));
    let ms = Nanos::from_millis(1);
    let t0 = current_moment();
    assert_eq!(Ok(()), lim.check_at("a".to_string(), t0.saturating_add(ms)));
    assert_eq!(Ok(()), lim.check_at("a".to_string(), t0.saturating_add(ms)));
    assert_ne!(
        Ok(()),
        lim.check_at("a".to_string(), t0.saturating_add(ms.saturating_mul(3)))
    );
    assert_eq!(
        Ok(()),
        lim.check_at("b".to_string(), t0.saturating_add(ms.saturating_mul(3)))
    );
    assert_eq!(
        Ok(()),
        lim.check_at("b".to_string(), t0.saturating_add(ms.saturating_mul(3)))
    );
    assert_ne!(
        Ok(()),
        lim.check_at("b".to_string(), t0.saturating_add(ms.saturating_mul(4)))
    );
}

#[test]
fn round_trip_steady_rate() {
    // calling exactly once per 1/5 second admits every cell
    let mut lb = DirectRateLimiter::<LeakyBucket>::per_second(5);
    let mut now = current_moment();
    let step = Nanos::from_millis(200);
    for i in 0..20 {
        assert_eq!(Ok(()), lb.check_at(now), "at call {}", i);
        now = now.saturating_add(step);
    }
}

#[test]
fn clone_shares_state() {
    let mut lim = DirectRateLimiter::<GCRA>::per_second(1);
    let mut lim2 = lim.clone();
    let t0 = current_moment();
    assert_eq!(Ok(()), lim.check_at(t0));
    assert_eq!(Ok(()), lim2.check_at(t0));
    // with a shared bucket the capacity is used up; a private copy would
    // still admit this cell
    assert_ne!(Ok(()), lim.check_at(t0));
}

#[test]
fn keyed_clone_shares_map() {
    let mut lim: KeyedRateLimiter<GCRA> = KeyedRateLimiter::new(1, Nanos::from_secs(1));
    let mut lim2 = lim.clone();
    let t0 = current_moment();
    assert_eq!(Ok(()), lim.check_at("k".to_string(), t0));
    assert_eq!(Ok(()), lim2.check_at("k".to_string(), t0));
    assert_ne!(Ok(()), lim.check_at("k".to_string(), t0));
}

#[test]
fn gcra_inconsistent_capacity() {
    assert_eq!(
        Err(InconsistentCapacity::new(1, 2)),
        GCRA::construct(1, 2, Nanos::from_secs(1))
    );
    assert_eq!(
        Err(InconsistentCapacity::new(0, 1)),
        GCRA::construct(0, 1, Nanos::from_secs(1))
    );
}

#[test]
fn leaky_bucket_inconsistent_capacity() {
    assert_eq!(
        Err(InconsistentCapacity::new(3, 10)),
        LeakyBucket::construct(3, 10, Nanos::from_secs(1))
    );
    assert_eq!(
        Err(InconsistentCapacity::new(5, 0)),
        LeakyBucket::construct(5, 0, Nanos::from_secs(1))
    );
}

#[test]
fn simple_operation() {
    let gcra = GCRA::construct(20, 1, Nanos::from_secs(1)).unwrap();
    let cell = ThreadsafeWrapper::new(&gcra, gcra.default_state());
    let now = current_moment();
    assert_eq!(Ok(()), cell.check_at(&gcra, now));
    let snapshot = cell.snapshot();
    assert_eq!(Some(now.saturating_add(Nanos::from_millis(50))), snapshot.tat);
}

#[test]
fn cell_measure_and_replace() {
    let gcra = GCRA::construct(20, 1, Nanos::from_secs(1)).unwrap();
    let cell = ThreadsafeWrapper::new(&gcra, gcra.default_state());
    let marker = current_moment();
    let r: Result<(), u8> = cell.measure_and_replace(|s| {
        assert_eq!(None, s.tat);
        (
            Ok(()),
            Some(ratelimit_meter::algorithms::gcra::State { tat: Some(marker) }),
        )
    });
    assert_eq!(Ok(()), r);
    assert_eq!(Some(marker), cell.snapshot().tat);
    let r2: Result<(), u8> = cell.measure_and_replace(|_s| (Err(7), None));
    assert_eq!(Err(7), r2);
    // the rejected transition committed nothing
    assert_eq!(Some(marker), cell.snapshot().tat);
}

#[test]
fn jitter_exact_minimum() {
    let lb = LeakyBucket::construct(1, 1, Nanos::from_secs(1)).unwrap();
    let mut state = lb.default_state();
    let now = current_moment();
    lb.test_and_update(&mut state, now).unwrap();
    let rejected = lb.test_and_update(&mut state, now);
    // a zero-width interval pins the sampled offset to the minimum
    let jit = Jitter::new(Nanos::from_millis(5), Nanos::from_nanos(0));
    match rejected.jitter(&jit) {
        Err(e) => {
            assert_eq!(
                Nanos::from_millis(1005),
                e.wait_time_from(now),
                "the reported wait must grow by exactly the minimum jitter"
            );
            assert_eq!(
                now.saturating_add(Nanos::from_millis(1005)),
                e.earliest_possible()
            );
        }
        Ok(()) => panic!("Second attempt should fail"),
    }
}

#[test]
fn jitter_within_bounds() {
    let lb = LeakyBucket::construct(1, 1, Nanos::from_secs(1)).unwrap();
    let mut state = lb.default_state();
    let now = current_moment();
    lb.test_and_update(&mut state, now).unwrap();
    let rejected = lb.test_and_update(&mut state, now);
    let jit = Jitter::new(Nanos::from_millis(2), Nanos::from_millis(10));
    match rejected.jitter(&jit) {
        Err(e) => {
            let wait = e.wait_time_from(now);
            assert!(Nanos::from_millis(1002).as_nanos() <= wait.as_nanos());
            assert!(wait.as_nanos() <= Nanos::from_millis(1012).as_nanos());
        }
        Ok(()) => panic!("Second attempt should fail"),
    }
}

#[test]
fn direct_builder_builds() {
    let mut lim = DirectRateLimiter::<GCRA>::build_with_capacity(10)
        .cell_weight(2)
        .unwrap()
        .per(Nanos::from_secs(1))
        .build()
        .unwrap();
    let t0 = current_moment();
    assert_eq!(Ok(()), lim.check_at(t0));

    let too_heavy = DirectRateLimiter::<GCRA>::build_with_capacity(1).cell_weight(2);
    assert!(too_heavy.is_err());
}

#[test]
fn keyed_builder_builds() {
    let mut lim = KeyedRateLimiter::<LeakyBucket>::build_with_capacity(5)
        .with_map_capacity(16)
        .build()
        .unwrap();
    let t0 = current_moment();
    assert_eq!(Ok(()), lim.check_at("x".to_string(), t0));

    let too_heavy = KeyedRateLimiter::<LeakyBucket>::build_with_capacity(1).with_cell_weight(9);
    assert!(too_heavy.is_err());
}

#[test]
fn allower_allows_everything() {
    let mut allower = ratelimit_meter::example_algorithms::Allower::ratelimiter();
    assert!(allower.check().is_ok());
    assert!(allower.check_n(1000000).is_ok());
}

#[test]
fn parameter_formulas() {
    // GCRA: the emission interval is the time unit split over the
    // capacity, scaled by the cell weight
    let g = GCRA::construct(5, 2, Nanos::from_secs(1)).unwrap();
    assert_eq!(Nanos::from_millis(400), g.t);
    assert_eq!(Nanos::from_secs(1), g.tau);
    // leaky bucket: the token interval is the time unit scaled by the
    // cell weight, split over the capacity
    let lb = LeakyBucket::construct(4, 3, Nanos::from_secs(1)).unwrap();
    assert_eq!(Nanos::from_millis(750), lb.token_interval);
    assert_eq!(Nanos::from_secs(1), lb.full);
}

#[test]
fn last_touched_values() {
    let t0 = current_moment();
    let g = GCRA::construct(1, 1, Nanos::from_secs(1)).unwrap();
    let mut gs = g.default_state();
    assert_eq!(None, gs.last_touched(&g));
    g.test_and_update(&mut gs, t0).unwrap();
    assert_eq!(Some(t0.saturating_add(Nanos::from_secs(1))), gs.last_touched(&g));

    let lb = LeakyBucket::construct(2, 1, Nanos::from_secs(1)).unwrap();
    let mut ls = lb.default_state();
    assert_eq!(None, ls.last_touched(&lb));
    lb.test_and_update(&mut ls, t0).unwrap();
    // the bucket is fully drained one fill level past its last update
    assert_eq!(
        Some(t0.saturating_add(Nanos::from_millis(500))),
        ls.last_touched(&lb)
    );
}

#[test]
fn algorithm_for_test_checks() {
    let t: ratelimit_meter::test_utilities::AlgorithmForTest<
        GCRA,
        ratelimit_meter::clock::FakeRelativeClock,
    > = ratelimit_meter::test_utilities::AlgorithmForTest::new(5, None, None);
    let now = current_moment();
    let mut s = t.state();
    assert_eq!(Ok(()), t.check(&mut s, now));
    assert!(t.check_n(&mut s, 15, now).is_err());
    assert_eq!(Nanos::from_millis(200), t.algorithm().t);
}

#[test]
fn batch_insufficient_on_keyed() {
    let mut lim: KeyedRateLimiter<GCRA> = KeyedRateLimiter::new(5, Nanos::from_secs(1));
    let t0 = current_moment();
    match lim.check_n_at("k".to_string(), 15, t0) {
        Err(ratelimit_meter::NegativeMultiDecision::InsufficientCapacity(n)) => {
            assert_eq!(15, n)
        }
        other => panic!("Did not expect {:?}", other),
    }
}
