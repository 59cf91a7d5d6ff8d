//! A value stamped with the instant it was last set and the period after
//! which it goes stale, and the decisions of a refresh-on-demand cache built
//! on it.
//!
//! Instants are readings of a monotonic clock in nanoseconds; periods are in
//! nanoseconds too. Reading the clock is left to the caller, so every
//! decision here is a function of the reading it is handed.
//!
//! A failed fetch leaves a stale entry in place rather than evicting it, and
//! nothing remembers the failure: every later caller fetches again until one
//! succeeds. There is no backoff at this layer.
use vstd::prelude::*;

verus! {

/// A value, if one has been set, together with the instant it was last set
/// and its refresh period.
#[derive(Debug, Clone)]
pub struct Cached<T> {
    inner: Option<T>,
    last_updated: u64,
    refresh_period: u64,
}

/// Time elapsed from `since` to `now`; a reading earlier than `since`
/// counts as no time at all.
pub open spec fn elapsed(since: u64, now: u64) -> nat {
    if now >= since {
        (now - since) as nat
    } else {
        0
    }
}

impl<T> Cached<T> {
    /// The held value, if any.
    pub closed spec fn value(&self) -> Option<T> {
        self.inner
    }

    /// The clock reading at which the entry was last set.
    pub closed spec fn updated_at(&self) -> u64 {
        self.last_updated
    }

    /// The period after which the value is stale.
    pub closed spec fn period(&self) -> u64 {
        self.refresh_period
    }

    /// The entry is expired at `now` when it holds no value, or once a full
    /// period has elapsed since it was set.
    pub open spec fn expired_at(&self, now: u64) -> bool {
        self.value() is None || elapsed(self.updated_at(), now) >= self.period()
    }

    /// What a lookup at `now` serves: the held value while it is not expired,
    /// and nothing otherwise.
    pub open spec fn fresh_at(&self, now: u64) -> Option<T> {
        if self.expired_at(now) {
            None
        } else {
            self.value()
        }
    }

    /// `after` is what `before` becomes once a fetch that came back with
    /// `outcome` is recorded at `now`: a fetched value is stored with a new
    /// stamp; a failure leaves the entry exactly as it was.
    pub open spec fn fetch_recorded<E>(
        before: Self,
        after: Self,
        outcome: Result<T, E>,
        now: u64,
    ) -> bool {
        match outcome {
            Ok(v) => {
                &&& after.value() == Some(v)
                &&& after.updated_at() == now
                &&& after.period() == before.period()
            },
            Err(_) => after == before,
        }
    }

    /// Holds `inner`, set at clock reading `now`, to go stale after `refresh_period`.
    pub fn new(inner: T, refresh_period: u64, now: u64) -> (r: Self)
        ensures
            r.value() == Some(inner),
            r.updated_at() == now,
            r.period() == refresh_period,
    {
        Cached { inner: Some(inner), last_updated: now, refresh_period }
    }

    /// An entry that holds no value yet, stamped at `now`.
    pub fn empty(refresh_period: u64, now: u64) -> (r: Self)
        ensures
            r.value() is None,
            r.updated_at() == now,
            r.period() == refresh_period,
    {
        Cached { inner: None, last_updated: now, refresh_period }
    }

    /// The held value, stale or not.
    pub fn get(&self) -> (r: &T)
        requires
            self.value() is Some,
        ensures
            self.value() == Some(*r),
    {
        self.inner.as_ref().unwrap()
    }

    /// Whether the entry is expired at clock reading `now`.
    pub fn is_expired(&self, now: u64) -> (r: bool)
        ensures
            r == self.expired_at(now),
    {
        let elapsed: u64 = if now >= self.last_updated {
            now - self.last_updated
        } else {
            0
        };
        self.inner.is_none() || elapsed >= self.refresh_period
    }

    /// Replaces the value and restarts its period at clock reading `now`.
    pub fn update(&mut self, inner: T, now: u64)
        ensures
            final(self).value() == Some(inner),
            final(self).updated_at() == now,
            final(self).period() == old(self).period(),
    {
        self.inner = Some(inner);
        self.last_updated = now;
    }

    /// The value to serve at `now` without fetching, if there is one.
    pub fn fresh_value(&self, now: u64) -> (r: Option<&T>)
        ensures
            r is None <==> self.fresh_at(now) is None,
            r matches Some(x) ==> self.fresh_at(now) == Some(*x),
    {
        if self.is_expired(now) {
            None
        } else {
            self.inner.as_ref()
        }
    }

    /// Records the outcome of a fetch completed at `now` and hands it on:
    /// a fetched value is stored and served, an error is passed back and the
    /// entry is left untouched, still expired.
    pub fn record_fetch<E>(&mut self, outcome: Result<T, E>, now: u64) -> (r: Result<&T, E>)
        ensures
            Self::fetch_recorded(*old(self), *final(self), outcome, now),
            outcome matches Ok(v) ==> r matches Ok(x) && *x == v,
            outcome matches Err(e) ==> r == Err::<&T, E>(e),
    {
        match outcome {
            Ok(v) => {
                self.update(v, now);
                Ok(self.inner.as_ref().unwrap())
            },
            Err(e) => Err(e),
        }
    }
}

/// Two lookups separated by less than the refresh period, the first of which
/// had to fetch and succeeded, fetch once between them: the second is served
/// the fetched value without fetching.
pub proof fn lemma_one_fetch_within_period<T, E>(
    before: Cached<T>,
    after: Cached<T>,
    v: T,
    first: u64,
    stored_at: u64,
    second: u64,
)
    requires
        before.fresh_at(first) is None,
        first <= stored_at,
        Cached::fetch_recorded(before, after, Ok::<T, E>(v), stored_at),
        stored_at <= second,
        (second - stored_at) < before.period(),
    ensures
        after.fresh_at(second) == Some(v),
{
}

/// A lookup made once the refresh period has elapsed since the last
/// successful fetch, or before any fetch succeeded, must fetch, and so must
/// its re-check at any later reading while nothing else has refreshed the
/// entry.
pub proof fn lemma_fetch_after_period<T>(c: Cached<T>, now: u64, recheck: u64)
    requires
        c.value() is None || elapsed(c.updated_at(), now) >= c.period(),
        now <= recheck,
    ensures
        c.fresh_at(now) is None,
        c.fresh_at(recheck) is None,
{
}

/// A failed fetch leaves the entry's value and its expiry as they were: an
/// entry that had to be fetched at `now` is still expired at every later
/// reading, so the next caller fetches again.
pub proof fn lemma_failed_fetch_keeps_entry<T, E>(
    before: Cached<T>,
    after: Cached<T>,
    e: E,
    now: u64,
    later: u64,
)
    requires
        Cached::fetch_recorded(before, after, Err::<T, E>(e), now),
        before.fresh_at(now) is None,
        now <= later,
    ensures
        after.value() == before.value(),
        after.updated_at() == before.updated_at(),
        after.period() == before.period(),
        forall|t: u64| #[trigger] after.expired_at(t) == before.expired_at(t),
        after.expired_at(later),
{
}

} // verus!
