use vstd::prelude::*;

use crate::shard::Shard;

verus! {

#[verifier::external_type_specification]
#[verifier::external_body]
#[verifier::reject_recursive_types(T)]
pub struct ExRwLock<T: ?Sized>(tokio::sync::RwLock<T>);

/// Relies on tokio's `RwLock::new`: it puts the shard behind a new lock of its
/// own. Nothing is claimed of the lock; what it holds is out of Verus's sight.
#[verifier::external_body]
fn lock_shard<V>(shard: Shard<V>) -> tokio::sync::RwLock<Shard<V>> {
    tokio::sync::RwLock::new(shard)
}

/// What `DefaultHasher` makes of a key: the `Hash` of a `str` feeds its bytes,
/// so the result depends on the key alone.
pub uninterp spec fn default_hash_of(key: Seq<char>) -> u64;

/// Relies on `BuildHasher::hash_one` with std's `DefaultHasher`, whose instances
/// made by `new` or `default` are documented to be all the same: equal keys
/// give equal hashes.
#[verifier::external_body]
fn hash_key(key: &str) -> (r: u64)
    ensures
        r == default_hash_of(key@),
{
    let builder = std::hash::BuildHasherDefault::<std::collections::hash_map::DefaultHasher>::default();
    std::hash::BuildHasher::hash_one(&builder, key)
}

/// The index of the shard that holds `key` among `num_shards`.
pub open spec fn route_of(key: Seq<char>, num_shards: nat) -> int
    recommends
        num_shards > 0,
{
    default_hash_of(key) as int % num_shards as int
}

/// Reduces a hash to a shard index.
pub fn shard_index(hash: u64, num_shards: usize) -> (r: usize)
    requires
        num_shards > 0,
    ensures
        r == hash as int % num_shards as int,
        r < num_shards,
{
    (hash % num_shards as u64) as usize
}

/// A fixed number of shards, each behind its own reader-writer lock.
///
/// A key always lives in the shard that [`ShardedMap::route`] gives for it, so a
/// single-key operation touches exactly one shard and takes only its lock.
#[verifier::reject_recursive_types(V)]
pub struct ShardedMap<V> {
    shards: Vec<tokio::sync::RwLock<Shard<V>>>,
    num_shards: usize,
}

impl<V> ShardedMap<V> {
    #[verifier::type_invariant]
    spec fn well_formed(&self) -> bool {
        &&& self.num_shards > 0
        &&& self.shards@.len() == self.num_shards
    }

    /// The number of shards, fixed at construction.
    pub closed spec fn shard_count(&self) -> nat {
        self.num_shards as nat
    }

    /// The shard lock at `i`.
    pub closed spec fn shard_at(&self, i: int) -> tokio::sync::RwLock<Shard<V>> {
        self.shards@[i]
    }

    /// A map of `num_shards` empty shards, each with its own lock.
    pub fn new(num_shards: usize) -> (r: ShardedMap<V>)
        requires
            num_shards > 0,
        ensures
            r.shard_count() == num_shards,
    {
        let mut shards: Vec<tokio::sync::RwLock<Shard<V>>> = Vec::new();
        let mut i: usize = 0;
        while i < num_shards
            invariant
                i <= num_shards,
                shards@.len() == i,
            decreases num_shards - i,
        {
            shards.push(lock_shard(Shard::new()));
            i = i + 1;
        }
        ShardedMap { shards, num_shards }
    }

    /// The number of shards.
    pub fn num_shards(&self) -> (r: usize)
        ensures
            r == self.shard_count(),
            r > 0,
    {
        proof { use_type_invariant(self); }
        self.num_shards
    }

    /// The index of the shard that holds `key`: its hash modulo the shard count.
    pub fn route(&self, key: &str) -> (r: usize)
        ensures
            r == route_of(key@, self.shard_count()),
            r < self.shard_count(),
    {
        proof { use_type_invariant(self); }
        shard_index(hash_key(key), self.num_shards)
    }

    /// The lock of the shard that holds `key`.
    pub fn get_shard(&self, key: &str) -> (r: &tokio::sync::RwLock<Shard<V>>)
        ensures
            *r == self.shard_at(route_of(key@, self.shard_count())),
    {
        proof { use_type_invariant(self); }
        let i = self.route(key);
        &self.shards[i]
    }
}

} // verus!
