//! Per-connection token bucket: rate and burst are clamped to at least one,
//! so a bad configuration can never deadlock the limiter.

use crate::security::{MAX_MESSAGES_PER_SECOND, MESSAGE_BURST_CAPACITY};
use vstd::prelude::*;

verus! {

/// The token-bucket state governor keeps; opaque here, consulted through the
/// wrappers below.
#[verifier::external_body]
pub struct GovernorLimiter {
    inner: governor::RateLimiter<
        governor::state::NotKeyed,
        governor::state::InMemoryState,
        governor::clock::DefaultClock,
    >,
}

/// Relies on `governor::Quota::per_second`, `Quota::allow_burst` and
/// `governor::RateLimiter::direct`: a token bucket replenishing `rate` tokens
/// per second and holding at most `burst` in reserve. `NonZeroU32::new`
/// refuses zero, so zero inputs are left out here.
#[verifier::external_body]
fn governor_direct(rate: u32, burst: u32) -> GovernorLimiter
    requires
        rate >= 1,
        burst >= 1,
{
    let r = core::num::NonZeroU32::new(rate).unwrap_or(core::num::NonZeroU32::MIN);
    let b = core::num::NonZeroU32::new(burst).unwrap_or(core::num::NonZeroU32::MIN);
    let quota = governor::Quota::per_second(r).allow_burst(b);
    GovernorLimiter { inner: governor::RateLimiter::direct(quota) }
}

/// Relies on `governor::RateLimiter::check`: consumes one token when one is
/// available now; the outcome depends on the clock, so nothing more is
/// promised of it.
#[verifier::external_body]
fn governor_check(l: &GovernorLimiter) -> bool {
    l.inner.check().is_ok()
}

/// A per-connection message rate limiter.
pub struct RateLimiter {
    limiter: GovernorLimiter,
    rate: u32,
    burst: u32,
}

impl RateLimiter {
    /// The effective tokens-per-second rate: always at least one.
    pub closed spec fn rate(&self) -> u32 {
        self.rate
    }

    /// The effective burst capacity: always at least one.
    pub closed spec fn burst(&self) -> u32 {
        self.burst
    }

    /// A limiter with the default message rate and burst.
    pub fn new() -> (r: Self)
        ensures
            r.rate() == MAX_MESSAGES_PER_SECOND,
            r.burst() == MESSAGE_BURST_CAPACITY,
    {
        Self::with_config(MAX_MESSAGES_PER_SECOND, MESSAGE_BURST_CAPACITY)
    }

    /// A limiter with the given configuration; zero rate or burst is clamped
    /// to the minimum positive value, so the limiter can always make progress.
    pub fn with_config(rate_per_second: u32, burst_capacity: u32) -> (r: Self)
        ensures
            r.rate() == (if rate_per_second == 0 {
                1u32
            } else {
                rate_per_second
            }),
            r.burst() == (if burst_capacity == 0 {
                1u32
            } else {
                burst_capacity
            }),
    {
        let rate: u32 = if rate_per_second == 0 {
            1
        } else {
            rate_per_second
        };
        let burst: u32 = if burst_capacity == 0 {
            1
        } else {
            burst_capacity
        };
        RateLimiter { limiter: governor_direct(rate, burst), rate, burst }
    }

    /// Consumes one token if one is available now; never blocks.
    pub fn try_acquire(&self) -> bool {
        governor_check(&self.limiter)
    }
}

impl Default for RateLimiter {
    /// The default limiter: the standard message rate and burst.
    fn default() -> (r: Self)
        ensures
            r.rate() == MAX_MESSAGES_PER_SECOND,
            r.burst() == MESSAGE_BURST_CAPACITY,
    {
        Self::new()
    }
}

} // verus!
