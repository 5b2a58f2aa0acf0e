//! Time-to-live arithmetic. Instants are milliseconds since the Unix epoch;
//! durations handed in by clients are whole seconds.
use vstd::prelude::*;

verus! {

/// The instant `secs` seconds after `now`, held at the largest representable
/// instant when it lies beyond it.
pub open spec fn offset_spec(now: i64, secs: u64) -> i64 {
    if now + secs * 1000 > i64::MAX {
        i64::MAX
    } else {
        (now + secs * 1000) as i64
    }
}

/// A record with this deadline is no longer served at `now`.
pub open spec fn expired_at(expires_at: Option<i64>, now: i64) -> bool {
    match expires_at {
        Some(e) => e <= now,
        None => false,
    }
}

/// Whole seconds from `now` until `deadline`, truncated, and zero once it has passed.
pub open spec fn remaining_spec(deadline: i64, now: i64) -> u64 {
    if deadline <= now {
        0
    } else {
        ((deadline - now) / 1000) as u64
    }
}

/// Whole seconds from `now` until `deadline`, rounded up, for a backend's native TTL.
pub open spec fn native_ttl_spec(deadline: i64, now: i64) -> u64 {
    if deadline <= now {
        0
    } else {
        ((deadline - now + 999) / 1000) as u64
    }
}

/// The TTL that applies to a stored artifact: its own when positive, else the default.
pub open spec fn effective_ttl_spec(requested: Option<u64>, default_ttl: u64) -> u64 {
    match requested {
        Some(t) => if t > 0 { t } else { default_ttl },
        None => default_ttl,
    }
}

/// Expiry of a record written at `now` with the given effective TTL; none when zero.
pub open spec fn expiry_for_ttl(ttl: u64, now: i64) -> Option<i64> {
    if ttl == 0 {
        None
    } else {
        Some(offset_spec(now, ttl))
    }
}

/// Expiry of a record hydrated from upstream: the upstream deadline when it is
/// still ahead, else the first positive of the remaining TTL, the artifact's TTL
/// and the default TTL, counted from `now`; else none.
pub open spec fn hydration_expiry_spec(
    upstream_expires: Option<i64>,
    ttl_remaining: Option<u64>,
    artifact_ttl: Option<u64>,
    default_ttl: u64,
    now: i64,
) -> Option<i64> {
    if upstream_expires is Some && upstream_expires->0 > now {
        upstream_expires
    } else if ttl_remaining is Some && ttl_remaining->0 > 0 {
        Some(offset_spec(now, ttl_remaining->0))
    } else if artifact_ttl is Some && artifact_ttl->0 > 0 {
        Some(offset_spec(now, artifact_ttl->0))
    } else if default_ttl > 0 {
        Some(offset_spec(now, default_ttl))
    } else {
        None
    }
}

pub fn offset(now: i64, secs: u64) -> (r: i64)
    ensures
        r == offset_spec(now, secs),
{
    let total: i128 = now as i128 + secs as i128 * 1000;
    if total > i64::MAX as i128 {
        i64::MAX
    } else {
        total as i64
    }
}

pub fn is_expired(expires_at: Option<i64>, now: i64) -> (r: bool)
    ensures
        r == expired_at(expires_at, now),
{
    match expires_at {
        Some(e) => e <= now,
        None => false,
    }
}

pub fn remaining_seconds(deadline: i64, now: i64) -> (r: u64)
    ensures
        r == remaining_spec(deadline, now),
{
    if deadline <= now {
        0
    } else {
        ((deadline as i128 - now as i128) / 1000) as u64
    }
}

/// Native TTL in seconds for a record that expires at `deadline`, rounded up;
/// zero when the deadline has already passed.
pub fn native_ttl_seconds(deadline: i64, now: i64) -> (r: u64)
    ensures
        r == native_ttl_spec(deadline, now),
        r == 0 <==> deadline <= now,
{
    if deadline <= now {
        0
    } else {
        ((deadline as i128 - now as i128 + 999) / 1000) as u64
    }
}

pub fn effective_ttl(requested: Option<u64>, default_ttl: u64) -> (r: u64)
    ensures
        r == effective_ttl_spec(requested, default_ttl),
{
    match requested {
        Some(t) => if t > 0 {
            t
        } else {
            default_ttl
        },
        None => default_ttl,
    }
}

pub fn store_expiry(requested: Option<u64>, default_ttl: u64, now: i64) -> (r: Option<i64>)
    ensures
        r == expiry_for_ttl(effective_ttl_spec(requested, default_ttl), now),
{
    let ttl = effective_ttl(requested, default_ttl);
    if ttl == 0 {
        None
    } else {
        Some(offset(now, ttl))
    }
}

pub fn hydration_expiry(
    upstream_expires: Option<i64>,
    ttl_remaining: Option<u64>,
    artifact_ttl: Option<u64>,
    default_ttl: u64,
    now: i64,
) -> (r: Option<i64>)
    ensures
        r == hydration_expiry_spec(upstream_expires, ttl_remaining, artifact_ttl, default_ttl, now),
        now < i64::MAX ==> (r matches Some(e) ==> e > now),
{
    if let Some(e) = upstream_expires {
        if e > now {
            return Some(e);
        }
    }
    if let Some(t) = ttl_remaining {
        if t > 0 {
            return Some(offset(now, t));
        }
    }
    if let Some(t) = artifact_ttl {
        if t > 0 {
            return Some(offset(now, t));
        }
    }
    if default_ttl > 0 {
        Some(offset(now, default_ttl))
    } else {
        None
    }
}

} // verus!
