//! Cached values stamped with the instant they were written.
//!
//! Instants and durations are milliseconds; an instant counts from the Unix
//! epoch. The clock is read by the caller and handed in, so every decision
//! here is a function of its arguments.
use vstd::prelude::*;
use crate::models::UserLink;

verus! {

/// Whether a value written at `cached_at` is stale at `now` under `ttl`.
/// An instant before the write (the clock went backwards) yields no valid
/// age, and such an entry counts as stale.
pub open spec fn stale_at(cached_at: u64, ttl: u64, now: u64) -> bool {
    now < cached_at || now - cached_at > ttl
}

/// A payload together with the instant of its last write.
pub struct CachedData<T> {
    pub data: T,
    /// The instant of the last write.
    pub cached_at: u64,
}

impl<T> CachedData<T> {
    pub fn new(data: T, now: u64) -> (r: Self)
        ensures
            r == (CachedData { data, cached_at: now }),
    {
        CachedData { data, cached_at: now }
    }

    pub fn is_stale(&self, ttl: u64, now: u64) -> (r: bool)
        ensures
            r == stale_at(self.cached_at, ttl, now),
    {
        now < self.cached_at || now - self.cached_at > ttl
    }

    /// Time since the last write; `None` when `now` lies before it.
    pub fn age(&self, now: u64) -> (r: Option<u64>)
        ensures
            r == (if now >= self.cached_at {
                Some((now - self.cached_at) as u64)
            } else {
                None::<u64>
            }),
    {
        if now >= self.cached_at {
            Some(now - self.cached_at)
        } else {
            None
        }
    }

    /// Replaces the payload and restarts the entry's age.
    pub fn update(&mut self, data: T, now: u64)
        ensures
            *final(self) == (CachedData { data, cached_at: now }),
    {
        self.data = data;
        self.cached_at = now;
    }
}

impl Clone for CachedData<UserLink> {
    fn clone(&self) -> (r: Self)
        ensures
            r == *self,
    {
        CachedData { data: self.data.clone(), cached_at: self.cached_at }
    }
}

/// How long a cached user link stays fresh: one hour.
pub const USER_LINK_TTL: u64 = 3_600_000;

} // verus!
