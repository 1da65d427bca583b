use lightdotso_api::limiter::{governor_config, service_governor_config};
use lightdotso_api::server::{rate_limit, RateLimit};
use tower_governor::governor::Governor;

#[test]
fn service_limit_builds() {
    assert!(governor_config(&rate_limit()).is_some());
    let _config = service_governor_config();
}

#[test]
fn zero_interval_builds_nothing() {
    assert!(governor_config(&RateLimit { per_second: 0, burst_size: 100 }).is_none());
}

#[test]
fn zero_burst_builds_nothing() {
    assert!(governor_config(&RateLimit { per_second: 30, burst_size: 0 }).is_none());
}

#[test]
fn smallest_limit_builds() {
    assert!(governor_config(&RateLimit { per_second: 1, burst_size: 1 }).is_some());
}

#[test]
fn longest_burst_that_fits_builds() {
    assert!(governor_config(&RateLimit { per_second: 18_446_744_073, burst_size: 1 }).is_some());
    assert!(governor_config(&RateLimit { per_second: 4, burst_size: u32::MAX }).is_some());
}

#[test]
fn burst_beyond_the_clock_builds_nothing() {
    assert!(governor_config(&RateLimit { per_second: 18_446_744_074, burst_size: 1 }).is_none());
    assert!(governor_config(&RateLimit { per_second: 1 << 55, burst_size: 1 }).is_none());
    assert!(governor_config(&RateLimit { per_second: u64::MAX, burst_size: u32::MAX }).is_none());
}

#[test]
fn a_burst_is_served_and_the_next_request_throttled() {
    let config = service_governor_config();
    let governor = Governor::new((), &config.inner);
    let client = "10.0.0.1".parse().unwrap();
    for _ in 0..100 {
        assert!(governor.limiter.check_key(&client).is_ok());
    }
    assert!(governor.limiter.check_key(&client).is_err());
    assert!(governor.limiter.check_key(&client).is_err());
}

#[test]
fn clients_are_throttled_apart() {
    let config = service_governor_config();
    let governor = Governor::new((), &config.inner);
    let busy = "10.0.0.1".parse().unwrap();
    let quiet = "10.0.0.2".parse().unwrap();
    for _ in 0..100 {
        assert!(governor.limiter.check_key(&busy).is_ok());
    }
    assert!(governor.limiter.check_key(&busy).is_err());
    assert!(governor.limiter.check_key(&quiet).is_ok());
}
