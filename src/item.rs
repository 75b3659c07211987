use vstd::prelude::*;

verus! {

/// One cached value together with the instant at which it expires.
///
/// Instants are readings of one monotonic clock, in whatever unit the caller
/// keeps to. An entry is live strictly before `instant` and expired from it on.
pub struct Item<V> {
    pub instant: u64,
    pub value: V,
}

/// The expiry instant of an entry written at `now` for `ttl`.
pub open spec fn expiry(now: u64, ttl: u64) -> int {
    now + ttl
}

impl<V> Item<V> {
    /// Whether the entry is still live at `now`.
    pub open spec fn live_at(&self, now: u64) -> bool {
        now < self.instant
    }

    /// An entry written at `now` that lives for `ttl`.
    pub fn expiring(value: V, now: u64, ttl: u64) -> (r: Item<V>)
        requires
            expiry(now, ttl) <= u64::MAX,
        ensures
            r.instant == expiry(now, ttl),
            r.value == value,
    {
        Item { instant: now + ttl, value }
    }

    /// Whether the entry is still live at `now`: true strictly before its
    /// expiry instant.
    pub fn is_live(&self, now: u64) -> (r: bool)
        ensures
            r == self.live_at(now),
    {
        now < self.instant
    }
}

} // verus!
