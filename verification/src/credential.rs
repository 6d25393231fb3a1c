//! Credential cache: hands out a cached credential snapshot while it is
//! valid and installs a freshly exchanged one when it is not.
//!
//! The surrounding binary holds the cache behind an exclusive (async) lock
//! and drives it in three steps per call: acquire the lock, ask
//! [`CredentialCache::refresh_required`], perform the network exchange only
//! when told to, and hand the exchange's result — admitted through
//! [`outcome_of_exchange`], so that an expired result counts as a failed
//! exchange — to [`CredentialCache::get_credential`]. The lock serializes
//! concurrent callers, so a run of the cache is the sequence of calls in lock
//! order; [`cache_run`] is that sequence's model and the lemmas below state
//! the freshness laws over it.

use vstd::prelude::*;
use vstd::string::StringExecFns;

use crate::errors::CredentialError;

verus! {

/// An immutable, point-in-time credential value with an optional expiry.
///
/// Once produced it is superseded, never mutated in place. The expiry is a
/// timestamp in the same clock as the `now` arguments below; callers supply
/// the clock reading, the library never reads a clock itself.
#[derive(Debug, PartialEq, Eq)]
pub struct CredentialSnapshot {
    pub access_key_id: String,
    pub secret_key: String,
    pub session_token: Option<String>,
    pub expiry: Option<u64>,
}

impl CredentialSnapshot {
    /// A copy of the snapshot, equal to the original.
    pub fn duplicate(&self) -> (r: CredentialSnapshot)
        ensures
            r == *self,
    {
        CredentialSnapshot {
            access_key_id: self.access_key_id.clone(),
            secret_key: self.secret_key.clone(),
            session_token: match &self.session_token {
                Some(t) => Some(t.clone()),
                None => None,
            },
            expiry: self.expiry,
        }
    }
}

/// What the injected credential provider yielded when it was consulted.
///
/// The exchange is a network call of the surrounding binary; the cache only
/// consumes its outcome, and only when the stored snapshot is not valid.
#[derive(Debug)]
pub enum ProviderOutcome {
    /// No provider is configured; nothing was exchanged.
    Unavailable,
    /// The exchange ran and failed with the given message.
    Failed(String),
    /// The exchange ran and produced this snapshot.
    Fresh(CredentialSnapshot),
}

/// A snapshot is valid at `now` when it never expires or has not yet expired.
pub open spec fn snapshot_valid(s: CredentialSnapshot, now: u64) -> bool {
    match s.expiry {
        None => true,
        Some(t) => now <= t,
    }
}

/// Admits the raw result of a credential exchange as the outcome the cache
/// may consume: a snapshot valid at `now` is a fresh outcome, one already
/// expired is a failed exchange — it must never be handed out, so it is
/// turned into a typed failure here rather than installed.
pub fn outcome_of_exchange(s: CredentialSnapshot, now: u64) -> (o: ProviderOutcome)
    ensures
        snapshot_valid(s, now) ==> o == ProviderOutcome::Fresh(s),
        !snapshot_valid(s, now) ==> (o matches ProviderOutcome::Failed(m) && m@
            == "credential exchange returned an expired snapshot"@),
{
    let valid = match s.expiry {
        None => true,
        Some(t) => now <= t,
    };
    if valid {
        ProviderOutcome::Fresh(s)
    } else {
        ProviderOutcome::Failed(
            String::from_str("credential exchange returned an expired snapshot"),
        )
    }
}

/// Caches at most one snapshot for the life of the process, created empty,
/// populated or replaced only by [`CredentialCache::get_credential`].
///
/// `exchanges` counts the provider exchanges performed so far; the freshness
/// laws below are stated over it.
pub struct CredentialCache {
    pub entry: Option<CredentialSnapshot>,
    pub exchanges: u64,
}

/// The cache holds a snapshot that is valid at `now`.
pub open spec fn cache_hit(c: CredentialCache, now: u64) -> bool {
    match c.entry {
        Some(s) => snapshot_valid(s, now),
        None => false,
    }
}

/// One serialized pass of check-then-maybe-refresh-then-read: the cache after
/// the call and the value handed to the caller.
pub open spec fn cache_step(c: CredentialCache, now: u64, outcome: ProviderOutcome) -> (
    CredentialCache,
    Result<CredentialSnapshot, CredentialError>,
) {
    if cache_hit(c, now) {
        (c, Ok(c.entry->0))
    } else {
        match outcome {
            ProviderOutcome::Unavailable => (c, Err(CredentialError::ProviderUnavailable)),
            ProviderOutcome::Failed(m) => (
                CredentialCache { entry: c.entry, exchanges: (c.exchanges + 1) as u64 },
                Err(CredentialError::ProviderError(m)),
            ),
            ProviderOutcome::Fresh(s) => (
                CredentialCache { entry: Some(s), exchanges: (c.exchanges + 1) as u64 },
                Ok(s),
            ),
        }
    }
}

/// The cache after a serialized sequence of calls, one per entry of `times`,
/// where every call that misses consumes the same provider outcome. Since the
/// surrounding lock admits one caller at a time, a burst of concurrent calls
/// is exactly such a sequence in lock order.
pub open spec fn cache_run(c: CredentialCache, times: Seq<u64>, outcome: ProviderOutcome) -> CredentialCache
    decreases times.len(),
{
    if times.len() == 0 {
        c
    } else {
        cache_run(cache_step(c, times.first(), outcome).0, times.drop_first(), outcome)
    }
}

/// The values handed out by that same sequence of calls, in call order.
pub open spec fn cache_run_results(
    c: CredentialCache,
    times: Seq<u64>,
    outcome: ProviderOutcome,
) -> Seq<Result<CredentialSnapshot, CredentialError>>
    decreases times.len(),
{
    if times.len() == 0 {
        Seq::empty()
    } else {
        seq![cache_step(c, times.first(), outcome).1] + cache_run_results(
            cache_step(c, times.first(), outcome).0,
            times.drop_first(),
            outcome,
        )
    }
}

/// While the stored snapshot is valid, reads are free: a sequence of calls
/// that all hit performs no exchange, leaves the cache exactly as it was, and
/// hands every caller the stored snapshot.
pub proof fn lemma_valid_cache_serves_all_reads(
    c: CredentialCache,
    times: Seq<u64>,
    outcome: ProviderOutcome,
)
    requires
        forall|i: int| 0 <= i < times.len() ==> cache_hit(c, #[trigger] times[i]),
    ensures
        cache_run(c, times, outcome) == c,
        cache_run_results(c, times, outcome).len() == times.len(),
        forall|i: int|
            0 <= i < times.len() ==> cache_run_results(c, times, outcome)[i] == Ok::<
                CredentialSnapshot,
                CredentialError,
            >(c.entry->0),
    decreases times.len(),
{
    if times.len() > 0 {
        assert(cache_hit(c, times[0]));
        lemma_valid_cache_serves_all_reads(c, times.drop_first(), outcome);
        assert forall|i: int| 0 <= i < times.len() implies cache_run_results(c, times, outcome)[i]
            == Ok::<CredentialSnapshot, CredentialError>(c.entry->0) by {
            if i > 0 {
                assert(times.drop_first()[i - 1] == times[i]);
            }
        }
    }
}

/// One exchange per invalidation window: when the first of a sequence of
/// calls misses — the cache is empty or its snapshot has expired — and the
/// provider hands back a snapshot still valid at every call's time, then the
/// whole sequence performs exactly one exchange, ends with that snapshot
/// stored, and hands it to every caller identically.
pub proof fn lemma_one_exchange_per_window(
    c: CredentialCache,
    s: CredentialSnapshot,
    times: Seq<u64>,
)
    requires
        times.len() >= 1,
        c.exchanges < u64::MAX,
        !cache_hit(c, times[0]),
        forall|i: int| 0 <= i < times.len() ==> snapshot_valid(s, #[trigger] times[i]),
    ensures
        cache_run(c, times, ProviderOutcome::Fresh(s)).exchanges == c.exchanges + 1,
        cache_run(c, times, ProviderOutcome::Fresh(s)).entry == Some(s),
        cache_run_results(c, times, ProviderOutcome::Fresh(s)).len() == times.len(),
        forall|i: int|
            0 <= i < times.len() ==> cache_run_results(c, times, ProviderOutcome::Fresh(s))[i]
                == Ok::<CredentialSnapshot, CredentialError>(s),
{
    let c1 = cache_step(c, times[0], ProviderOutcome::Fresh(s)).0;
    assert(c1.entry == Some(s) && c1.exchanges == c.exchanges + 1);
    assert(forall|i: int|
        0 <= i < times.drop_first().len() ==> cache_hit(c1, #[trigger] times.drop_first()[i]));
    lemma_valid_cache_serves_all_reads(c1, times.drop_first(), ProviderOutcome::Fresh(s));
    assert forall|i: int|
        0 <= i < times.len() implies cache_run_results(c, times, ProviderOutcome::Fresh(s))[i]
        == Ok::<CredentialSnapshot, CredentialError>(s) by {
        if i > 0 {
            assert(cache_run_results(c1, times.drop_first(), ProviderOutcome::Fresh(s))[i - 1]
                == Ok::<CredentialSnapshot, CredentialError>(c1.entry->0));
        }
    }
}

/// Once the stored snapshot's expiry has passed, the calls of the following
/// invalidation window — however many callers arrive, as long as the renewed
/// snapshot stays valid for them — perform exactly one exchange, and every
/// caller receives the renewed snapshot. A call arriving exactly at the
/// expiry instant still counts as a hit and opens no window.
pub proof fn lemma_expired_snapshot_single_refresh(
    c: CredentialCache,
    s: CredentialSnapshot,
    times: Seq<u64>,
)
    requires
        times.len() >= 1,
        c.exchanges < u64::MAX,
        c.entry matches Some(stored) && stored.expiry matches Some(t) && t < times[0],
        forall|i: int| 0 <= i < times.len() ==> snapshot_valid(s, #[trigger] times[i]),
    ensures
        cache_run(c, times, ProviderOutcome::Fresh(s)).exchanges == c.exchanges + 1,
        cache_run(c, times, ProviderOutcome::Fresh(s)).entry == Some(s),
        forall|i: int|
            0 <= i < times.len() ==> cache_run_results(c, times, ProviderOutcome::Fresh(s))[i]
                == Ok::<CredentialSnapshot, CredentialError>(s),
{
    lemma_one_exchange_per_window(c, s, times);
}

/// From the empty cache, any number of callers arriving before the fetched
/// snapshot's expiry cause exactly one exchange and all receive that one
/// snapshot.
pub proof fn lemma_empty_cache_single_exchange(
    c: CredentialCache,
    s: CredentialSnapshot,
    times: Seq<u64>,
)
    requires
        times.len() >= 1,
        c.entry is None,
        c.exchanges < u64::MAX,
        forall|i: int| 0 <= i < times.len() ==> snapshot_valid(s, #[trigger] times[i]),
    ensures
        cache_run(c, times, ProviderOutcome::Fresh(s)).exchanges == c.exchanges + 1,
        forall|i: int|
            0 <= i < times.len() ==> cache_run_results(c, times, ProviderOutcome::Fresh(s))[i]
                == Ok::<CredentialSnapshot, CredentialError>(s),
{
    lemma_one_exchange_per_window(c, s, times);
}

impl CredentialCache {
    /// The empty cache: no snapshot, no exchange performed yet.
    pub fn new() -> (c: CredentialCache)
        ensures
            c.entry is None,
            c.exchanges == 0,
    {
        CredentialCache { entry: None, exchanges: 0 }
    }

    /// True when a call at `now` must consult the provider before it can be
    /// served. The binary asks this under the lock and performs the exchange
    /// only on `true`.
    pub fn refresh_required(&self, now: u64) -> (r: bool)
        ensures
            r == !cache_hit(*self, now),
    {
        match &self.entry {
            Some(s) => match s.expiry {
                None => false,
                Some(t) => now > t,
            },
            None => true,
        }
    }

    /// The whole under-lock sequence: test validity, install the exchange's
    /// outcome when the stored snapshot was invalid, and hand out a copy of
    /// the now-stored snapshot.
    ///
    /// `outcome` is consulted only on a miss: a call that hits leaves the
    /// cache untouched and performs no exchange. A failed exchange leaves the
    /// stored snapshot unmodified, so a later call may retry.
    ///
    /// A fresh outcome must hold a snapshot valid at `now` — the caller gets
    /// one by passing the raw exchange result through
    /// [`outcome_of_exchange`], which turns an expired snapshot into a failed
    /// exchange. Under that condition the hand-out invariant holds: a
    /// snapshot returned to a caller never expires, or has not yet expired at
    /// the moment of hand-out.
    pub fn get_credential(&mut self, now: u64, outcome: ProviderOutcome) -> (r: Result<
        CredentialSnapshot,
        CredentialError,
    >)
        requires
            old(self).exchanges < u64::MAX,
            outcome matches ProviderOutcome::Fresh(s) ==> snapshot_valid(s, now),
        ensures
            *final(self) == cache_step(*old(self), now, outcome).0,
            r == cache_step(*old(self), now, outcome).1,
            cache_hit(*old(self), now) ==> *final(self) == *old(self),
            r is Ok <==> (cache_hit(*old(self), now) || outcome is Fresh),
            r matches Ok(snap) ==> snapshot_valid(snap, now),
    {
        if self.refresh_required(now) {
            match outcome {
                ProviderOutcome::Unavailable => {
                    return Err(CredentialError::ProviderUnavailable);
                },
                ProviderOutcome::Failed(m) => {
                    self.exchanges = self.exchanges + 1;
                    return Err(CredentialError::ProviderError(m));
                },
                ProviderOutcome::Fresh(s) => {
                    self.exchanges = self.exchanges + 1;
                    self.entry = Some(s);
                },
            }
        }
        match &self.entry {
            Some(s) => Ok(s.duplicate()),
            None => vstd::pervasive::unreached(),
        }
    }
}

} // verus!
