//! The rate limiter's configuration, built from the service's rate limit.
//!
//! The limiter itself is `tower_governor`'s. What is decided here is whether
//! a limit can be handed to its builder at all: the builder refuses a limit
//! that allows nothing and panics on one whose burst outlasts its clock.

use vstd::prelude::*;
use governor::middleware::StateInformationMiddleware;
use tower_governor::governor::{GovernorConfig, GovernorConfigBuilder};
use tower_governor::key_extractor::SmartIpKeyExtractor;
use crate::server::{rate_limit, RateLimit, RATE_LIMIT_BURST_SIZE, RATE_LIMIT_PER_SECOND};

verus! {

/// A finished `tower_governor::governor::GovernorConfig`: keyed by the
/// client's IP address, with the rate-limit headers on its responses. The
/// verifier does not look inside: the type's bounds are traits it cannot
/// read.
#[verifier::external_body]
pub struct LimiterConfig {
    pub inner: GovernorConfig<SmartIpKeyExtractor, StateInformationMiddleware>,
}

/// The limit that a configuration was built with.
pub uninterp spec fn limit_of(config: LimiterConfig) -> RateLimit;

/// Runs `tower_governor`'s `GovernorConfigBuilder` with the limit's interval
/// (`per_second`) and burst size (`burst_size`), the rate-limit headers
/// switched on (`use_headers`) and the smart IP key extractor
/// (`key_extractor`), and calls its `finish`.
///
/// Trusted: `finish` yields a configuration unless the interval or the burst
/// size is zero, and the configuration's quota is that interval and burst.
/// It panics where the time for a whole burst does not fit the limiter's
/// 64-bit nanosecond count, so such a limit is not admitted.
#[verifier::external_body]
fn build_governor_config(limit: &RateLimit) -> (r: Option<LimiterConfig>)
    requires
        limit.fits_clock(),
    ensures
        r.is_some() == limit.is_usable(),
        r matches Some(config) ==> limit_of(config) == *limit,
{
    GovernorConfigBuilder::default()
        .per_second(limit.per_second)
        .burst_size(limit.burst_size)
        .use_headers()
        .key_extractor(SmartIpKeyExtractor)
        .finish()
        .map(|inner| LimiterConfig { inner })
}

/// The limiter configuration for `limit`, if one can be built from it: the
/// limit must allow something, and a whole burst must fit the limiter's
/// clock.
pub fn governor_config(limit: &RateLimit) -> (r: Option<LimiterConfig>)
    ensures
        r.is_some() == (limit.is_usable() && limit.fits_clock()),
        r matches Some(config) ==> limit_of(config) == *limit,
{
    if limit.is_buildable() {
        build_governor_config(limit)
    } else {
        None
    }
}

/// The limiter configuration of the service, built with the service's rate
/// limit. That limit can be built from, so there always is one.
pub fn service_governor_config() -> (r: LimiterConfig)
    ensures
        limit_of(r) == (RateLimit {
            per_second: RATE_LIMIT_PER_SECOND,
            burst_size: RATE_LIMIT_BURST_SIZE,
        }),
{
    let limit = rate_limit();
    build_governor_config(&limit).unwrap()
}

} // verus!
