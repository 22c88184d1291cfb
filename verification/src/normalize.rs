//! Bucket normalization: the canonical ingestion timestamp.
//!
//! A cycle is identified by the instant it ran, truncated to the start of its
//! hour, expressed as whole seconds since the Unix epoch in UTC. Truncating
//! gives a stable grouping key that does not depend on the exact second the
//! job started. Instants are carried as seconds since the epoch, so the
//! sub-second part of the wall clock is already gone before normalization,
//! and the value is the same whatever zone the clock was read in.

use vstd::prelude::*;

verus! {

/// Seconds in one hour of Unix time; every UTC hour starts at a multiple.
pub const SECONDS_PER_HOUR: i64 = 3600;

/// The instant `t` truncated to the start of its hour.
pub open spec fn hour_bucket_of(t: int) -> int {
    t - (t % 3600)
}

/// Minutes past the hour of the instant `t`.
pub open spec fn minute_in_hour(t: int) -> int {
    (t % 3600) / 60
}

/// Seconds past the minute of the instant `t`.
pub open spec fn second_in_minute(t: int) -> int {
    t % 60
}

/// Whole hours since the Unix epoch at the instant `t`.
pub open spec fn hours_since_epoch(t: int) -> int {
    t / 3600
}

/// Normalizing an instant zeroes its minutes and seconds and keeps its hour:
/// the bucket is the unique hour boundary at or before the instant.
pub proof fn lemma_hour_bucket_normalizes(t: int)
    ensures
        hour_bucket_of(t) % 3600 == 0,
        minute_in_hour(hour_bucket_of(t)) == 0,
        second_in_minute(hour_bucket_of(t)) == 0,
        hours_since_epoch(hour_bucket_of(t)) == hours_since_epoch(t),
        hour_bucket_of(t) <= t < hour_bucket_of(t) + 3600,
{
    vstd::arithmetic::div_mod::lemma_fundamental_div_mod(t, 3600);
    vstd::arithmetic::div_mod::lemma_mod_bound(t, 3600);
    let q = t / 3600;
    assert(hour_bucket_of(t) == 3600 * q);
    vstd::arithmetic::div_mod::lemma_mod_multiples_basic(q, 3600);
    vstd::arithmetic::div_mod::lemma_div_multiples_vanish(q, 3600);
    assert(3600 * q == 60 * (60 * q)) by (nonlinear_arith);
    vstd::arithmetic::div_mod::lemma_mod_multiples_basic(60 * q, 60);
}

/// Normalizing is idempotent: an hour boundary is its own bucket.
pub proof fn lemma_hour_bucket_idempotent(t: int)
    ensures
        hour_bucket_of(hour_bucket_of(t)) == hour_bucket_of(t),
{
    lemma_hour_bucket_normalizes(t);
    let b = hour_bucket_of(t);
    vstd::arithmetic::div_mod::lemma_fundamental_div_mod(b, 3600);
}

/// Computes the bucket timestamp for the instant `now`: `now` truncated to
/// the start of its hour. Instants before the epoch never reach this
/// pipeline, so the input is taken as non-negative.
pub fn hour_bucket(now: i64) -> (b: i64)
    requires
        0 <= now,
    ensures
        b == hour_bucket_of(now as int),
        0 <= b <= now,
        b % 3600 == 0,
{
    proof {
        vstd::arithmetic::div_mod::lemma_mod_bound(now as int, 3600);
    }
    let r: i64 = now % SECONDS_PER_HOUR;
    now - r
}

} // verus!
