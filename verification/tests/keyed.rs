use ratelimit_meter::test_utilities::current_moment;
use ratelimit_meter::KeyedRateLimiter;
use ratelimit_meter::Nanos;

fn make_bucket() -> KeyedRateLimiter {
    let ms = Nanos::from_millis(1);
    let now = current_moment();
    let mut lim: KeyedRateLimiter = KeyedRateLimiter::new(1, Nanos::from_secs(1));
    lim.check_at("foo".to_string(), now).unwrap();
    lim.check_at("bar".to_string(), now.saturating_add(ms.saturating_mul(200)))
        .unwrap();
    lim.check_at("baz".to_string(), now.saturating_add(ms.saturating_mul(800)))
        .unwrap();
    lim
}

#[test]
fn different_states_per_key() {
    let mut lim: KeyedRateLimiter = KeyedRateLimiter::new(1, Nanos::from_secs(1));
    let ms = Nanos::from_millis(1);
    let now = current_moment();
    assert_eq!(Ok(()), lim.check_at("foo".to_string(), now.saturating_add(ms)));
    assert_eq!(Ok(()), lim.check_at("bar".to_string(), now.saturating_add(ms)));
    assert_eq!(Ok(()), lim.check_at("baz".to_string(), now.saturating_add(ms)));

    assert_ne!(
        Ok(()),
        lim.check_at("foo".to_string(), now.saturating_add(ms.saturating_mul(3)))
    );
    assert_ne!(
        Ok(()),
        lim.check_at("bar".to_string(), now.saturating_add(ms.saturating_mul(3)))
    );
    assert_ne!(
        Ok(()),
        lim.check_at("baz".to_string(), now.saturating_add(ms.saturating_mul(3)))
    );
}

#[test]
fn expiration() {
    let ms = Nanos::from_millis(1);
    let now = current_moment();
    let then = now.saturating_add(ms.saturating_mul(2000)); // two seconds later

    // clean up all keys that are indistinguishable from unoccupied keys:
    let mut lim = make_bucket();
    let mut removed = lim.cleanup_at(None, then);
    removed.sort();
    assert_eq!(
        vec!["bar".to_string(), "baz".to_string(), "foo".to_string()],
        removed
    );

    // clean up all keys that have been so for 300ms:
    let mut lim = make_bucket();
    let mut removed = lim.cleanup_at(Some(Nanos::from_millis(300)), then);
    removed.sort();
    assert_eq!(vec!["bar".to_string(), "foo".to_string()], removed);

    // clean up 2 seconds plus change later:
    let mut lim = make_bucket();
    let mut removed = lim.cleanup_at(
        Some(Nanos::from_secs(1)),
        now.saturating_add(ms.saturating_mul(2100)),
    );
    removed.sort();
    assert_eq!(vec!["foo".to_string()], removed);
}
