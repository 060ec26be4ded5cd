use ratelimit_meter::algorithms::Algorithm;
use ratelimit_meter::algorithms::NonConformance;
use ratelimit_meter::test_utilities::current_moment;
use ratelimit_meter::Nanos;
use ratelimit_meter::NegativeMultiDecision;
use ratelimit_meter::GCRA;

#[test]
fn gcra_accepts_first_cell() {
    let gcra = GCRA::construct(5, 1, Nanos::from_secs(1)).unwrap();
    let mut state = gcra.default_state();
    let now = current_moment();
    assert_eq!(Ok(()), gcra.test_and_update(&mut state, now));
}

#[test]
fn gcra_rejects_too_many() {
    let gcra = GCRA::construct(1, 1, Nanos::from_secs(1)).unwrap();
    let mut state = gcra.default_state();
    let now = current_moment();
    gcra.test_and_update(&mut state, now).unwrap();
    gcra.test_and_update(&mut state, now).unwrap();
    assert_ne!(
        Ok(()),
        gcra.test_and_update(&mut state, now),
        "{:?} {:?}",
        &state,
        &gcra
    );
}

#[test]
fn allows_after_interval() {
    let gcra = GCRA::construct(1, 1, Nanos::from_secs(1)).unwrap();
    let mut state = gcra.default_state();
    let now = current_moment();
    let ms = Nanos::from_millis(1);
    gcra.test_and_update(&mut state, now).unwrap();
    assert_eq!(Ok(()), gcra.test_and_update(&mut state, now.saturating_add(ms)));
    assert_ne!(
        Ok(()),
        gcra.test_and_update(&mut state, now.saturating_add(ms.saturating_mul(2)))
    );
    // should be ok again in 1s:
    let next = now.saturating_add(Nanos::from_secs(1));
    assert_eq!(Ok(()), gcra.test_and_update(&mut state, next));
}

#[test]
fn allows_n_after_interval() {
    let gcra = GCRA::construct(2, 1, Nanos::from_secs(1)).unwrap();
    let mut state = gcra.default_state();
    let now = current_moment().saturating_add(Nanos::from_secs(1));
    let ms = Nanos::from_millis(1);
    assert_eq!(Ok(()), gcra.test_n_and_update(&mut state, 2, now));
    assert!(!gcra
        .test_n_and_update(&mut state, 2, now.saturating_add(ms))
        .is_ok());
    // should be ok again in 1.5s:
    let next = now.saturating_add(Nanos::from_secs(1));
    assert_eq!(
        Ok(()),
        gcra.test_n_and_update(&mut state, 2, next),
        "now: {:?}",
        next
    );

    // should always accommodate 0 cells:
    assert_eq!(Ok(()), gcra.test_n_and_update(&mut state, 0, next));
}

#[test]
fn correctly_handles_per() {
    let ms = Nanos::from_millis(1);
    let gcra = GCRA::construct(1, 1, Nanos::from_millis(20)).unwrap();
    let mut state = gcra.default_state();
    let now = current_moment();

    assert_eq!(Ok(()), gcra.test_and_update(&mut state, now));
    assert_eq!(Ok(()), gcra.test_and_update(&mut state, now.saturating_add(ms)));
    assert!(!gcra
        .test_and_update(&mut state, now.saturating_add(ms.saturating_mul(10)))
        .is_ok());
    assert_eq!(
        Ok(()),
        gcra.test_and_update(&mut state, now.saturating_add(ms.saturating_mul(20)))
    );
}

#[test]
fn gcra_never_allows_more_than_capacity() {
    let ms = Nanos::from_millis(1);
    let gcra = GCRA::construct(5, 1, Nanos::from_secs(1)).unwrap();
    let mut state = gcra.default_state();
    let now = current_moment();

    // Should not allow the first 15 cells on a capacity 5 bucket:
    assert!(gcra.test_n_and_update(&mut state, 15, now).is_err());

    // After 3 and 20 seconds, it should not allow 15 on that bucket either:
    assert!(gcra
        .test_n_and_update(&mut state, 15, now.saturating_add(ms.saturating_mul(3 * 1000)))
        .is_err());

    let result =
        gcra.test_n_and_update(&mut state, 15, now.saturating_add(ms.saturating_mul(20 * 1000)));
    match result {
        Err(NegativeMultiDecision::InsufficientCapacity(n)) => assert_eq!(n, 15),
        _ => panic!("Did not expect {:?}", result),
    }
}

#[test]
fn gcra_correct_wait_time() {
    // Bucket adding a new element per 200ms:
    let gcra = GCRA::construct(5, 1, Nanos::from_secs(1)).unwrap();
    let mut state = gcra.default_state();
    let mut now = current_moment();
    let ms = Nanos::from_millis(1);
    let mut conforming = 0;
    for _i in 0..20 {
        now = now.saturating_add(ms);
        let res = gcra.test_and_update(&mut state, now);
        match res {
            Ok(()) => {
                conforming += 1;
            }
            Err(wait) => {
                now = now.saturating_add(wait.wait_time_from(now));
                assert_eq!(Ok(()), gcra.test_and_update(&mut state, now));
                conforming += 1;
            }
        }
    }
    assert_eq!(20, conforming);
}

#[test]
fn nonconformance_wait_time_from() {
    let gcra = GCRA::construct(1, 1, Nanos::from_secs(1)).unwrap();
    let mut state = gcra.default_state();
    let now = current_moment();
    let ms = Nanos::from_millis(1);
    gcra.test_and_update(&mut state, now).unwrap();
    gcra.test_and_update(&mut state, now).unwrap();
    if let Err(failure) = gcra.test_and_update(&mut state, now) {
        assert_eq!(ms.saturating_mul(2000), failure.wait_time_from(now));
        assert_eq!(
            Nanos::from_nanos(0),
            failure.wait_time_from(now.saturating_add(ms.saturating_mul(2000)))
        );
        assert_eq!(
            Nanos::from_nanos(0),
            failure.wait_time_from(now.saturating_add(ms.saturating_mul(2001)))
        );
    } else {
        assert!(false, "Second attempt should fail");
    }
}
