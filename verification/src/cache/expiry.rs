//! The cache as mathematics: a map from keys to payloads with an expiry,
//! the operations on it, and the laws that relate them.
//!
//! A point in time is a whole number of nanoseconds from the Unix epoch,
//! negative before it; a span of time is a natural number of nanoseconds.

use vstd::prelude::*;

verus! {

/// What the cache holds under one key.
pub struct EntryView {
    /// The stored text.
    pub payload: Seq<char>,
    /// The first instant at which the entry is no longer live.
    pub expires_at: int,
}

/// The contents of a cache: at most one entry under each key.
pub type CacheView = Map<Seq<char>, EntryView>;

/// An entry is live strictly before its expiry.
pub open spec fn is_live(entry: EntryView, now: int) -> bool {
    now < entry.expires_at
}

/// The entry that a write at `now` with time to live `ttl` creates.
pub open spec fn fresh_entry(payload: Seq<char>, now: int, ttl: nat) -> EntryView {
    EntryView { payload, expires_at: now + ttl }
}

/// The cache without the entries that are not live at `now`.
pub open spec fn swept(cache: CacheView, now: int) -> CacheView {
    Map::new(
        |key: Seq<char>| cache.contains_key(key) && is_live(cache[key], now),
        |key: Seq<char>| cache[key],
    )
}

/// What a read of `key` at `now` yields: the payload of a live entry, or
/// nothing.
pub open spec fn lookup(cache: CacheView, key: Seq<char>, now: int) -> Option<Seq<char>> {
    if cache.contains_key(key) && is_live(cache[key], now) {
        Some(cache[key].payload)
    } else {
        None
    }
}

/// The cache after `payload` is written under `key` at `now` with time to
/// live `ttl`: the entry is inserted, or replaces the one that was there.
pub open spec fn written(
    cache: CacheView,
    key: Seq<char>,
    payload: Seq<char>,
    now: int,
    ttl: nat,
) -> CacheView {
    cache.insert(key, fresh_entry(payload, now, ttl))
}

/// The cache with nothing in it.
pub open spec fn cleared() -> CacheView {
    Map::empty()
}

/// One change to a cache.
pub enum Step {
    /// `payload` is written under `key` at `now` with time to live `ttl`.
    Write { key: Seq<char>, payload: Seq<char>, now: int, ttl: nat },
    /// The entries that are not live at `now` are removed.
    Sweep { now: int },
    /// Every entry is removed.
    Clear,
}

/// The cache after one change.
pub open spec fn after(cache: CacheView, step: Step) -> CacheView {
    match step {
        Step::Write { key, payload, now, ttl } => written(cache, key, payload, now, ttl),
        Step::Sweep { now } => swept(cache, now),
        Step::Clear => cleared(),
    }
}

/// The cache that a history of changes leaves behind, starting from
/// nothing.
pub open spec fn replay(history: Seq<Step>) -> CacheView
    decreases history.len(),
{
    if history.len() == 0 {
        cleared()
    } else {
        after(replay(history.drop_last()), history.last())
    }
}

/// The change is a write under `key`.
pub open spec fn writes_to(step: Step, key: Seq<char>) -> bool {
    step matches Step::Write { key: written_key, .. } && written_key == key
}

/// A key that no change in the history wrote to reads as absent, at every
/// instant.
pub proof fn law_unwritten_key_is_absent(history: Seq<Step>, key: Seq<char>, now: int)
    requires
        forall|i: int| 0 <= i < history.len() ==> !writes_to(#[trigger] history[i], key),
    ensures
        !replay(history).contains_key(key),
        lookup(replay(history), key, now) is None,
    decreases history.len(),
{
    if history.len() > 0 {
        let earlier = history.drop_last();
        assert forall|i: int| 0 <= i < earlier.len() implies !writes_to(
            #[trigger] earlier[i],
            key,
        ) by {
            assert(earlier[i] == history[i]);
        }
        law_unwritten_key_is_absent(earlier, key, now);
        assert(!writes_to(history[history.len() - 1], key));
    }
}

/// A payload written with a time to live above zero is read back
/// unchanged at the instant of the write, and at every later instant
/// before the expiry, whether or not a sweep came in between.
pub proof fn law_write_then_read(
    cache: CacheView,
    key: Seq<char>,
    payload: Seq<char>,
    now: int,
    ttl: nat,
    at: int,
)
    requires
        ttl > 0,
        now <= at < now + ttl,
    ensures
        lookup(written(cache, key, payload, now, ttl), key, now) == Some(payload),
        lookup(written(cache, key, payload, now, ttl), key, at) == Some(payload),
        lookup(swept(written(cache, key, payload, now, ttl), at), key, at) == Some(payload),
{
}

/// From its expiry on an entry is never read, swept or not.
pub proof fn law_expired_is_absent(
    cache: CacheView,
    key: Seq<char>,
    payload: Seq<char>,
    now: int,
    ttl: nat,
    at: int,
)
    requires
        now + ttl <= at,
    ensures
        lookup(written(cache, key, payload, now, ttl), key, at) is None,
        lookup(swept(written(cache, key, payload, now, ttl), at), key, at) is None,
{
}

/// An entry written with a time to live of zero is never live: it is
/// absent at the instant of the write and at every later one.
pub proof fn law_zero_ttl_is_absent(
    cache: CacheView,
    key: Seq<char>,
    payload: Seq<char>,
    now: int,
    at: int,
)
    requires
        now <= at,
    ensures
        written(cache, key, payload, now, 0).contains_key(key),
        lookup(written(cache, key, payload, now, 0), key, at) is None,
{
}

/// The last write under a key wins: a second write leaves the cache that
/// it would have left without the first, and while its entry is live a
/// read yields its payload.
pub proof fn law_last_write_wins(
    cache: CacheView,
    key: Seq<char>,
    first: Seq<char>,
    first_now: int,
    first_ttl: nat,
    second: Seq<char>,
    second_now: int,
    second_ttl: nat,
    at: int,
)
    ensures
        written(written(cache, key, first, first_now, first_ttl), key, second, second_now, second_ttl)
            == written(cache, key, second, second_now, second_ttl),
        at < second_now + second_ttl ==> lookup(
            written(
                written(cache, key, first, first_now, first_ttl),
                key,
                second,
                second_now,
                second_ttl,
            ),
            key,
            at,
        ) == Some(second),
{
    assert(written(
        written(cache, key, first, first_now, first_ttl),
        key,
        second,
        second_now,
        second_ttl,
    ) =~= written(cache, key, second, second_now, second_ttl));
}

/// After a clear every key reads as absent, whatever had been written
/// before and however long it had left to live.
pub proof fn law_clear_forgets_all(history: Seq<Step>, key: Seq<char>, now: int)
    ensures
        lookup(after(replay(history), Step::Clear), key, now) is None,
        replay(history.push(Step::Clear)) == cleared(),
{
    assert(history.push(Step::Clear).drop_last() == history);
}

/// Every change in the history is a write, or a sweep that is not later
/// than `at`.
pub open spec fn writes_and_sweeps_until(history: Seq<Step>, at: int) -> bool {
    forall|i: int|
        0 <= i < history.len() ==> match #[trigger] history[i] {
            Step::Write { .. } => true,
            Step::Sweep { now } => now <= at,
            Step::Clear => false,
        }
}

/// No two writes in the history are under the same key.
pub open spec fn keys_written_once(history: Seq<Step>) -> bool {
    forall|i: int, j: int|
        0 <= i < j < history.len() && (#[trigger] history[i]) is Write && (
        #[trigger] history[j]) is Write ==> history[i]->key != history[j]->key
}

/// Writes under distinct keys do not disturb each other, in whatever
/// order they come and whatever sweeps come between them: after any
/// number of them each entry that is still live is read back with its own
/// payload. With [`law_unwritten_key_is_absent`] the cache then holds the
/// written keys and no other.
pub proof fn law_distinct_writes_are_all_kept(history: Seq<Step>, i: int, at: int)
    requires
        writes_and_sweeps_until(history, at),
        keys_written_once(history),
        0 <= i < history.len(),
        history[i] is Write,
        at < history[i]->Write_now + history[i]->ttl,
    ensures
        lookup(replay(history), history[i]->key, at) == Some(history[i]->payload),
    decreases history.len(),
{
    let last = history.len() - 1;
    let earlier = history.drop_last();
    if i < last {
        assert forall|k: int| 0 <= k < earlier.len() implies match #[trigger] earlier[k] {
            Step::Write { .. } => true,
            Step::Sweep { now } => now <= at,
            Step::Clear => false,
        } by {
            assert(earlier[k] == history[k]);
        }
        assert forall|a: int, b: int|
            0 <= a < b < earlier.len() && (#[trigger] earlier[a]) is Write && (
            #[trigger] earlier[b]) is Write implies earlier[a]->key != earlier[b]->key by {
            assert(earlier[a] == history[a]);
            assert(earlier[b] == history[b]);
        }
        assert(earlier[i] == history[i]);
        law_distinct_writes_are_all_kept(earlier, i, at);
        match history[last] {
            Step::Write { key, payload, now, ttl } => {
                assert(history[i]->key != history[last]->key);
            },
            Step::Sweep { now } => {},
            Step::Clear => {},
        }
    }
}

/// A write under one key leaves what is read under every other key as it
/// was.
pub proof fn law_write_leaves_other_keys(
    cache: CacheView,
    key: Seq<char>,
    payload: Seq<char>,
    now: int,
    ttl: nat,
    other: Seq<char>,
    at: int,
)
    requires
        other != key,
    ensures
        lookup(written(cache, key, payload, now, ttl), other, at) == lookup(cache, other, at),
{
}

/// A sweep cannot be seen by a read that is not earlier than it: the
/// entries that it removes are those that such a read would not return.
pub proof fn law_sweep_is_invisible(cache: CacheView, key: Seq<char>, swept_at: int, at: int)
    requires
        swept_at <= at,
    ensures
        lookup(swept(cache, swept_at), key, at) == lookup(cache, key, at),
{
}

/// A sweep leaves exactly the live entries, each as it was.
pub proof fn law_sweep_keeps_live(cache: CacheView, key: Seq<char>, now: int)
    ensures
        swept(cache, now).contains_key(key) <==> cache.contains_key(key) && is_live(
            cache[key],
            now,
        ),
        swept(cache, now).contains_key(key) ==> swept(cache, now)[key] == cache[key],
{
}

} // verus!
