use vstd::hash_map::StringHashMap;
use vstd::prelude::*;

use crate::item::{expiry, Item};

verus! {

/// The value stored under `key` if its entry is live at `now`.
pub open spec fn fresh_value<V>(m: Map<Seq<char>, Item<V>>, key: Seq<char>, now: u64) -> Option<V> {
    if m.contains_key(key) && m[key].live_at(now) {
        Some(m[key].value)
    } else {
        None
    }
}

/// One partition of the cache: a map from key to entry.
///
/// A shard never changes on its own: an entry that has expired stays in place
/// until it is overwritten or removed.
#[verifier::reject_recursive_types(V)]
pub struct Shard<V> {
    entries: StringHashMap<Item<V>>,
}

impl<V> View for Shard<V> {
    type V = Map<Seq<char>, Item<V>>;

    closed spec fn view(&self) -> Map<Seq<char>, Item<V>> {
        self.entries@
    }
}

impl<V> Shard<V> {
    /// An empty shard.
    pub fn new() -> (r: Shard<V>)
        ensures
            r@ == Map::<Seq<char>, Item<V>>::empty(),
    {
        Shard { entries: StringHashMap::new() }
    }

    /// The entry stored under `key`, live or not.
    pub fn entry(&self, key: &str) -> (r: Option<&Item<V>>)
        ensures
            match r {
                Some(item) => self@.contains_key(key@) && *item == self@[key@],
                None => !self@.contains_key(key@),
            },
    {
        self.entries.get(key)
    }

    /// The value under `key` if its entry is live at `now`; an expired entry
    /// reads as absent and is left where it is.
    pub fn get_fresh(&self, key: &str, now: u64) -> (r: Option<&V>)
        ensures
            match r {
                Some(v) => fresh_value(self@, key@, now) == Some(*v),
                None => fresh_value(self@, key@, now) is None,
            },
    {
        match self.entries.get(key) {
            Some(item) => {
                if item.is_live(now) {
                    Some(&item.value)
                } else {
                    None
                }
            },
            None => None,
        }
    }

    /// Puts `item` under `key`, replacing any entry there, live or not.
    pub fn insert(&mut self, key: String, item: Item<V>)
        ensures
            final(self)@ == old(self)@.insert(key@, item),
    {
        self.entries.insert(key, item);
    }

    /// Writes `value` under `key` at `now`, to live for `ttl`.
    pub fn store(&mut self, key: String, value: V, now: u64, ttl: u64)
        requires
            expiry(now, ttl) <= u64::MAX,
        ensures
            final(self)@ == old(self)@.insert(key@, Item { instant: (now + ttl) as u64, value }),
    {
        let item = Item::expiring(value, now, ttl);
        self.insert(key, item);
    }

    /// Deletes the entry under `key`; tells whether there was one, live or not.
    pub fn remove(&mut self, key: &str) -> (r: bool)
        ensures
            r == old(self)@.contains_key(key@),
            final(self)@ == old(self)@.remove(key@),
    {
        let present = self.entries.contains_key(key);
        self.entries.remove(key);
        present
    }
}

/// A write to a shard, as the shard's writing methods perform it.
pub enum ShardWrite<V> {
    /// `insert` or `store`: the entry is put under the key.
    Put(Seq<char>, Item<V>),
    /// `remove`: whatever is under the key goes.
    Delete(Seq<char>),
}

/// The map after one write.
pub open spec fn write_to<V>(m: Map<Seq<char>, Item<V>>, w: ShardWrite<V>) -> Map<Seq<char>, Item<V>> {
    match w {
        ShardWrite::Put(k, item) => m.insert(k, item),
        ShardWrite::Delete(k) => m.remove(k),
    }
}

/// The map after `writes`, in order.
pub open spec fn write_all<V>(m: Map<Seq<char>, Item<V>>, writes: Seq<ShardWrite<V>>) -> Map<Seq<char>, Item<V>>
    decreases writes.len(),
{
    if writes.len() == 0 {
        m
    } else {
        write_all(write_to(m, writes[0]), writes.subrange(1, writes.len() as int))
    }
}

/// Whether `w` puts an entry under `key`.
pub open spec fn puts_key<V>(w: ShardWrite<V>, key: Seq<char>) -> bool {
    match w {
        ShardWrite::Put(k, _) => k == key,
        ShardWrite::Delete(_) => false,
    }
}

proof fn lemma_unwritten_stays_absent<V>(m: Map<Seq<char>, Item<V>>, writes: Seq<ShardWrite<V>>, key: Seq<char>)
    requires
        !m.contains_key(key),
        forall|i: int| 0 <= i < writes.len() ==> !puts_key(#[trigger] writes[i], key),
    ensures
        !write_all(m, writes).contains_key(key),
    decreases writes.len(),
{
    if writes.len() > 0 {
        let rest = writes.subrange(1, writes.len() as int);
        assert(!puts_key(writes[0], key));
        assert forall|i: int| 0 <= i < rest.len() implies !puts_key(#[trigger] rest[i], key) by {
            assert(rest[i] == writes[i + 1]);
        }
        lemma_unwritten_stays_absent(write_to(m, writes[0]), rest, key);
    }
}

/// A key that no write ever put an entry under reads as absent, at any time,
/// in a shard that started empty.
pub proof fn lemma_never_written_is_absent<V>(writes: Seq<ShardWrite<V>>, key: Seq<char>, now: u64)
    requires
        forall|i: int| 0 <= i < writes.len() ==> !puts_key(#[trigger] writes[i], key),
    ensures
        fresh_value(write_all(Map::<Seq<char>, Item<V>>::empty(), writes), key, now) is None,
{
    lemma_unwritten_stays_absent(Map::<Seq<char>, Item<V>>::empty(), writes, key);
}

/// A value stored at `t0` for `ttl` reads back at every instant from `t0` up to
/// but not including `t0 + ttl`, and reads as absent from `t0 + ttl` on.
pub proof fn lemma_live_until_expiry<V>(m: Map<Seq<char>, Item<V>>, key: Seq<char>, v: V, t0: u64, ttl: u64, t: u64)
    requires
        expiry(t0, ttl) <= u64::MAX,
    ensures
        t0 <= t < expiry(t0, ttl) ==> fresh_value(m.insert(key, Item { instant: (t0 + ttl) as u64, value: v }), key, t)
            == Some(v),
        t >= expiry(t0, ttl) ==> fresh_value(m.insert(key, Item { instant: (t0 + ttl) as u64, value: v }), key, t)
            is None,
{
}

/// Right after a removal the key reads as absent, at any time.
pub proof fn lemma_removed_is_absent<V>(m: Map<Seq<char>, Item<V>>, key: Seq<char>, now: u64)
    ensures
        fresh_value(m.remove(key), key, now) is None,
{
}

} // verus!
