use ratelimit_meter::algorithms::Algorithm;
use ratelimit_meter::algorithms::NonConformance;
use ratelimit_meter::jitter::Jitter;
use ratelimit_meter::jitter::JitterMultiResultExt;
use ratelimit_meter::jitter::JitterResultExt;
use ratelimit_meter::test_utilities::current_moment;
use ratelimit_meter::DirectRateLimiter;
use ratelimit_meter::LeakyBucket;
use ratelimit_meter::Nanos;
use ratelimit_meter::NegativeMultiDecision;

#[test]
fn leaky_bucket_accepts_first_cell() {
    let mut lb = DirectRateLimiter::<LeakyBucket>::per_second(5);
    assert_eq!(Ok(()), lb.check_at(current_moment()));
}

#[test]
fn leaky_bucket_rejects_too_many() {
    let mut lb = DirectRateLimiter::<LeakyBucket>::per_second(2);
    let now = current_moment();
    let ms = Nanos::from_millis(1);
    assert_eq!(Ok(()), lb.check_at(now));
    assert_eq!(Ok(()), lb.check_at(now));

    assert_ne!(Ok(()), lb.check_at(now.saturating_add(ms.saturating_mul(2))));

    // should be ok again in 1s:
    let next = now.saturating_add(Nanos::from_millis(1002));
    assert_eq!(Ok(()), lb.check_at(next));
    assert_eq!(Ok(()), lb.check_at(next.saturating_add(ms)));

    assert_ne!(Ok(()), lb.check_at(next.saturating_add(ms.saturating_mul(2))));
}

#[test]
fn leaky_bucket_never_allows_more_than_capacity() {
    let mut lb = DirectRateLimiter::<LeakyBucket>::per_second(5);
    let now = current_moment();
    let ms = Nanos::from_millis(1);

    // Should not allow the first 15 cells on a capacity 5 bucket:
    assert_ne!(Ok(()), lb.check_n_at(15, now));

    // After 3 and 20 seconds, it should not allow 15 on that bucket either:
    assert_ne!(
        Ok(()),
        lb.check_n_at(15, now.saturating_add(ms.saturating_mul(3 * 1000)))
    );
    let result = lb.check_n_at(15, now.saturating_add(ms.saturating_mul(20 * 1000)));
    match result {
        Err(NegativeMultiDecision::InsufficientCapacity(n)) => assert_eq!(n, 15),
        _ => panic!("Did not expect {:?}", result),
    }
}

#[test]
fn leaky_bucket_correct_wait_time() {
    // Bucket adding a new element per 200ms:
    let mut lb = DirectRateLimiter::<LeakyBucket>::per_second(5);
    let mut now = current_moment();
    let ms = Nanos::from_millis(1);
    let mut conforming = 0;
    for _i in 0..20 {
        now = now.saturating_add(ms);
        let res = lb.check_at(now);
        match res {
            Ok(()) => {
                conforming += 1;
            }
            Err(wait) => {
                now = now.saturating_add(wait.wait_time_from(now));
                assert_eq!(Ok(()), lb.check_at(now));
                conforming += 1;
            }
        }
    }
    assert_eq!(20, conforming);
}

#[test]
fn prevents_time_travel() {
    let mut lb = DirectRateLimiter::<LeakyBucket>::per_second(5);
    let now = current_moment().saturating_add(Nanos::from_secs(1));
    let ms = Nanos::from_millis(1);

    assert!(lb.check_at(now).is_ok());
    assert!(lb.check_at(now.saturating_sub(ms)).is_ok());
    assert!(lb.check_at(now.saturating_sub(ms.saturating_mul(500))).is_ok());
}

#[test]
fn tooearly_wait_time_from() {
    let lim = LeakyBucket::construct(1, 1, Nanos::from_secs(1)).unwrap();
    let mut state = lim.default_state();
    let now = current_moment();
    let ms = Nanos::from_millis(1);
    lim.test_and_update(&mut state, now).unwrap();
    if let Err(failure) = lim.test_and_update(&mut state, now) {
        assert_eq!(ms.saturating_mul(1000), failure.wait_time_from(now));
        assert_eq!(
            Nanos::from_nanos(0),
            failure.wait_time_from(now.saturating_add(ms.saturating_mul(1000)))
        );
        assert_eq!(
            Nanos::from_nanos(0),
            failure.wait_time_from(now.saturating_add(ms.saturating_mul(2001)))
        );
    } else {
        assert!(false, "Second attempt should fail");
    }
}

#[test]
fn applies_jitter() {
    let mut lim = DirectRateLimiter::<LeakyBucket>::per_second(20);
    let now = current_moment();

    let j = Jitter::up_to(Nanos::from_secs(1));
    lim.check_at(now).jitter(&j).unwrap();
    lim.check_n_at(1, now).jitter(&j).unwrap();
}
