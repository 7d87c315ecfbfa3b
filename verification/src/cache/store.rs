//! The owned store: entries in a vector, no key twice, with every
//! operation stated over [`CacheView`].
//!
//! A vector serves where a hash map might: every read and write of the
//! cache sweeps the store first, which walks all entries, so finding a key
//! by hashing would save nothing, and the vector is proved down to its
//! elements.

use vstd::prelude::*;
use crate::cache::expiry::{CacheView, EntryView, cleared, is_live, lookup, swept, written};

verus! {

/// One stored entry. The expiry is kept as its two summands, so that no
/// sum is ever formed in machine integers.
struct CacheEntry {
    key: String,
    data: String,
    written_at: i128,
    ttl: u128,
}

impl CacheEntry {
    /// The entry as the model sees it.
    spec fn model(&self) -> EntryView {
        EntryView { payload: self.data@, expires_at: self.written_at + self.ttl }
    }

    /// Whether the entry is live at `now`: whether less than the time to
    /// live has passed since the write.
    fn live_at(&self, now: i128) -> (live: bool)
        ensures
            live == is_live(self.model(), now as int),
    {
        if now < self.written_at {
            true
        } else if self.written_at >= 0 || now < 0 {
            let passed: i128 = now - self.written_at;
            (passed as u128) < self.ttl
        } else {
            let before_epoch: u128 = (-(self.written_at + 1)) as u128 + 1;
            let after_epoch: u128 = now as u128;
            before_epoch + after_epoch < self.ttl
        }
    }
}

/// No two entries share a key.
spec fn keys_distinct(entries: Seq<CacheEntry>) -> bool {
    forall|i: int, j: int|
        0 <= i < j < entries.len() ==> (#[trigger] entries[i]).key@ != (#[trigger] entries[j]).key@
}

/// Some entry is stored under `key`.
spec fn holds_key(entries: Seq<CacheEntry>, key: Seq<char>) -> bool {
    exists|i: int| 0 <= i < entries.len() && (#[trigger] entries[i]).key@ == key
}

/// The map that a sequence of entries stands for: each entry under its
/// key, a later one taking the place of an earlier one.
spec fn model_of(entries: Seq<CacheEntry>) -> CacheView
    decreases entries.len(),
{
    if entries.len() == 0 {
        Map::empty()
    } else {
        model_of(entries.drop_last()).insert(entries.last().key@, entries.last().model())
    }
}

/// The keys of the map are the keys of the entries.
proof fn lemma_model_keys(entries: Seq<CacheEntry>, key: Seq<char>)
    ensures
        model_of(entries).contains_key(key) <==> holds_key(entries, key),
    decreases entries.len(),
{
    if entries.len() > 0 {
        let front = entries.drop_last();
        lemma_model_keys(front, key);
        if holds_key(entries, key) {
            let i = choose|i: int| 0 <= i < entries.len() && (#[trigger] entries[i]).key@ == key;
            if i < entries.len() - 1 {
                assert(front[i].key@ == key);
            }
        }
        if holds_key(front, key) {
            let i = choose|i: int| 0 <= i < front.len() && (#[trigger] front[i]).key@ == key;
            assert(entries[i].key@ == key);
        }
        if entries.last().key@ == key {
            assert(entries[entries.len() - 1].key@ == key);
        }
    }
}

/// Where keys are distinct, the map holds each entry under its key.
proof fn lemma_model_at(entries: Seq<CacheEntry>, i: int)
    requires
        keys_distinct(entries),
        0 <= i < entries.len(),
    ensures
        model_of(entries).contains_key(entries[i].key@),
        model_of(entries)[entries[i].key@] == entries[i].model(),
    decreases entries.len(),
{
    let front = entries.drop_last();
    if i < entries.len() - 1 {
        assert(keys_distinct(front)) by {
            assert forall|a: int, b: int| 0 <= a < b < front.len() implies (#[trigger] front[a]).key@
                != (#[trigger] front[b]).key@ by {
                assert(entries[a].key@ != entries[b].key@);
            }
        }
        lemma_model_at(front, i);
        assert(front[i] == entries[i]);
        assert(entries[i].key@ != entries[entries.len() - 1].key@);
    }
}

/// Dropping the last entry of a sequence with distinct keys leaves
/// distinct keys, none of them the key that was dropped.
proof fn lemma_drop_last(entries: Seq<CacheEntry>)
    requires
        keys_distinct(entries),
        entries.len() > 0,
    ensures
        keys_distinct(entries.drop_last()),
        !model_of(entries.drop_last()).contains_key(entries.last().key@),
        model_of(entries) == model_of(entries.drop_last()).insert(
            entries.last().key@,
            entries.last().model(),
        ),
{
    let front = entries.drop_last();
    assert forall|a: int, b: int| 0 <= a < b < front.len() implies (#[trigger] front[a]).key@
        != (#[trigger] front[b]).key@ by {
        assert(entries[a].key@ != entries[b].key@);
    }
    lemma_model_keys(front, entries.last().key@);
    if holds_key(front, entries.last().key@) {
        let i = choose|i: int|
            0 <= i < front.len() && (#[trigger] front[i]).key@ == entries.last().key@;
        assert(entries[i].key@ != entries[entries.len() - 1].key@);
    }
}

/// Appending an entry under a key that is not yet held keeps the keys
/// distinct and inserts the entry in the map.
proof fn lemma_push(entries: Seq<CacheEntry>, entry: CacheEntry)
    requires
        keys_distinct(entries),
        !model_of(entries).contains_key(entry.key@),
    ensures
        keys_distinct(entries.push(entry)),
        model_of(entries.push(entry)) == model_of(entries).insert(entry.key@, entry.model()),
{
    let longer = entries.push(entry);
    assert(longer.drop_last() == entries);
    assert(longer.last() == entry);
    assert forall|a: int, b: int| 0 <= a < b < longer.len() implies (#[trigger] longer[a]).key@
        != (#[trigger] longer[b]).key@ by {
        if b < entries.len() {
            assert(entries[a].key@ != entries[b].key@);
        } else {
            lemma_model_keys(entries, entry.key@);
            assert(entries[a].key@ != entry.key@);
        }
    }
}

/// Replacing an entry by one under the same key keeps the keys distinct
/// and replaces the entry in the map.
proof fn lemma_replace(entries: Seq<CacheEntry>, i: int, entry: CacheEntry)
    requires
        keys_distinct(entries),
        0 <= i < entries.len(),
        entries[i].key@ == entry.key@,
    ensures
        keys_distinct(entries.update(i, entry)),
        model_of(entries.update(i, entry)) == model_of(entries).insert(entry.key@, entry.model()),
    decreases entries.len(),
{
    let changed = entries.update(i, entry);
    assert forall|a: int, b: int| 0 <= a < b < changed.len() implies (#[trigger] changed[a]).key@
        != (#[trigger] changed[b]).key@ by {
        assert(entries[a].key@ != entries[b].key@);
    }
    let front = entries.drop_last();
    lemma_drop_last(entries);
    if i == entries.len() - 1 {
        assert(changed.drop_last() == front);
        assert(model_of(changed) == model_of(entries).insert(entry.key@, entry.model()));
    } else {
        lemma_replace(front, i, entry);
        assert(changed.drop_last() == front.update(i, entry));
        assert(changed.last() == entries.last());
        assert(entries[i].key@ != entries[entries.len() - 1].key@);
        assert(model_of(changed) == model_of(entries).insert(entry.key@, entry.model()));
    }
}

/// A sequence with distinct keys stands for a map of as many entries.
proof fn lemma_model_size(entries: Seq<CacheEntry>)
    requires
        keys_distinct(entries),
    ensures
        model_of(entries).dom().finite(),
        model_of(entries).dom().len() == entries.len(),
    decreases entries.len(),
{
    if entries.len() > 0 {
        lemma_drop_last(entries);
        lemma_model_size(entries.drop_last());
    }
}

/// The entries of a cache, owned by one holder. Time is passed in: every
/// operation takes the current instant as an argument, in nanoseconds from
/// the Unix epoch, negative before it.
pub struct CacheStore {
    entries: Vec<CacheEntry>,
}

impl View for CacheStore {
    type V = CacheView;

    closed spec fn view(&self) -> CacheView {
        model_of(self.entries@)
    }
}

impl CacheStore {
    #[verifier::type_invariant]
    spec fn well_formed(&self) -> bool {
        keys_distinct(self.entries@)
    }

    /// A store with nothing in it.
    pub fn new() -> (store: Self)
        ensures
            store@ == cleared(),
    {
        CacheStore { entries: Vec::new() }
    }

    /// The number of entries, live or not.
    pub fn len(&self) -> (count: usize)
        ensures
            count == self@.dom().len(),
            self@.dom().finite(),
    {
        proof {
            use_type_invariant(self);
            lemma_model_size(self.entries@);
        }
        self.entries.len()
    }

    /// The position of the entry under `key`, if there is one.
    fn position(entries: &Vec<CacheEntry>, key: &String) -> (found: Option<usize>)
        ensures
            match found {
                Some(i) => i < entries.len() && entries[i as int].key@ == key@,
                None => !holds_key(entries@, key@),
            },
    {
        let mut i: usize = 0;
        while i < entries.len()
            invariant
                i <= entries.len(),
                forall|j: int| 0 <= j < i ==> (#[trigger] entries[j]).key@ != key@,
            decreases entries.len() - i,
        {
            if entries[i].key == *key {
                return Some(i);
            }
            i += 1;
        }
        None
    }

    /// Reads `key` at `now`: the payload of the entry under it if that
    /// entry is live, and nothing otherwise. An entry that is not live
    /// stays where it is.
    pub fn get(&self, key: &str, now: i128) -> (payload: Option<String>)
        ensures
            match payload {
                Some(text) => lookup(self@, key@, now as int) == Some(text@),
                None => lookup(self@, key@, now as int) is None,
            },
    {
        proof {
            use_type_invariant(self);
        }
        let wanted = key.to_owned();
        match Self::position(&self.entries, &wanted) {
            Some(i) => {
                proof {
                    lemma_model_at(self.entries@, i as int);
                }
                if self.entries[i].live_at(now) {
                    Some(self.entries[i].data.clone())
                } else {
                    None
                }
            },
            None => {
                proof {
                    lemma_model_keys(self.entries@, key@);
                }
                None
            },
        }
    }

    /// Writes `payload` under `key` at `now` with time to live `ttl`. An
    /// entry already under `key` is replaced, whatever its expiry; a `ttl`
    /// of zero stores an entry that is not live at `now` or later.
    pub fn set(&mut self, key: &str, payload: String, now: i128, ttl: u128)
        ensures
            final(self)@ == written(old(self)@, key@, payload@, now as int, ttl as nat),
    {
        proof {
            use_type_invariant(&*self);
        }
        let entry = CacheEntry { key: key.to_owned(), data: payload, written_at: now, ttl };
        let mut entries: Vec<CacheEntry> = Vec::new();
        std::mem::swap(&mut entries, &mut self.entries);
        match Self::position(&entries, &entry.key) {
            Some(i) => {
                proof {
                    lemma_replace(entries@, i as int, entry);
                }
                entries[i] = entry;
            },
            None => {
                proof {
                    lemma_model_keys(entries@, entry.key@);
                    lemma_push(entries@, entry);
                }
                entries.push(entry);
            },
        }
        self.entries = entries;
    }

    /// Removes every entry that is not live at `now`, then writes `payload`
    /// under `key` at `now` with time to live `ttl`: a write as the shared
    /// cache does it.
    pub fn sweep_and_set(&mut self, key: &str, payload: String, now: i128, ttl: u128)
        ensures
            final(self)@ == written(
                swept(old(self)@, now as int),
                key@,
                payload@,
                now as int,
                ttl as nat,
            ),
    {
        self.cleanup_expired(now);
        self.set(key, payload, now, ttl);
    }

    /// Removes every entry that is not live at `now`, and no other.
    pub fn cleanup_expired(&mut self, now: i128)
        ensures
            final(self)@ == swept(old(self)@, now as int),
    {
        proof {
            use_type_invariant(&*self);
        }
        let mut pending: Vec<CacheEntry> = Vec::new();
        std::mem::swap(&mut pending, &mut self.entries);
        let mut kept: Vec<CacheEntry> = Vec::new();
        let ghost before = model_of(pending@);
        while pending.len() > 0
            invariant
                keys_distinct(pending@),
                keys_distinct(kept@),
                forall|key: Seq<char>| #[trigger]
                    model_of(kept@).contains_key(key) ==> !model_of(pending@).contains_key(key),
                swept(before, now as int) == swept(model_of(pending@), now as int).union_prefer_right(
                    model_of(kept@),
                ),
            decreases pending.len(),
        {
            let ghost pending_before = pending@;
            let ghost kept_before = kept@;
            proof {
                lemma_drop_last(pending@);
            }
            let entry = pending.pop().unwrap();
            if entry.live_at(now) {
                proof {
                    lemma_push(kept@, entry);
                }
                kept.push(entry);
            }
            assert(swept(model_of(pending_before), now as int).union_prefer_right(
                model_of(kept_before),
            ) =~= swept(model_of(pending@), now as int).union_prefer_right(model_of(kept@)));
        }
        assert(swept(model_of(pending@), now as int).union_prefer_right(model_of(kept@))
            =~= model_of(kept@));
        self.entries = kept;
    }

    /// Removes every entry, live or not.
    pub fn clear(&mut self)
        ensures
            final(self)@ == cleared(),
    {
        self.entries = Vec::new();
    }
}

} // verus!
