use std::cell::Cell;

use crude_cache::fill::{start, step};
use crude_cache::sharded_map::shard_index;
use crude_cache::{FillAction, FillEvent, FillPhase, Item, Shard, ShardedMap};

/// Runs one `get_or_else_update` call against a shard that the caller already
/// holds exclusively, feeding the protocol what the shard and `compute` say.
fn fill_at<V: Clone>(shard: &mut Shard<V>, key: &str, now: u64, ttl: u64, compute: impl Fn() -> V) -> V {
    let mut phase = start();
    let mut event = FillEvent::ReadDone(shard.get_fresh(key, now).cloned());
    loop {
        match step(&mut phase, event) {
            FillAction::AcquireWrite => event = FillEvent::Rechecked(shard.get_fresh(key, now).cloned()),
            FillAction::RunCompute => event = FillEvent::Computed(compute()),
            FillAction::StoreAndReturn(v) => {
                shard.store(key.to_string(), v.clone(), now, ttl);
                return v;
            }
            FillAction::Return(v) => return v,
            FillAction::Ignore => panic!("the protocol ignored an event it asked for"),
        }
    }
}

fn usize_vec() -> Vec<usize> {
    vec![5, 4, 3, 2, 1, 0]
}

fn usize_vec2() -> Vec<usize> {
    vec![5, 4, 3, 2, 1, 1]
}

#[test]
fn lib_expiration_test() {
    let mut shard: Shard<&str> = Shard::new();
    let key = "h";
    let val = fill_at(&mut shard, key, 0, 500, || "testi");
    assert_eq!("testi", val);

    let val = shard.get_fresh(key, 200).copied();
    assert_eq!(Some("testi"), val);

    let val = shard.get_fresh(key, 200 + 301).copied();
    assert_eq!(None, val);
}

#[test]
fn crude_cache_expiration_test() {
    let mut shard: Shard<&str> = Shard::new();
    shard.store("h".to_string(), "testi", 0, 500);
    assert_eq!(Some(&"testi"), shard.get_fresh("h", 200));
    assert_eq!(Some(&"testi"), shard.get_fresh("h", 499));
    assert_eq!(None, shard.get_fresh("h", 500));
    assert_eq!(None, shard.get_fresh("h", 200 + 301));
    // lazy expiration: the stale entry is still stored
    assert!(shard.entry("h").is_some());
}

#[test]
fn lib_update_test() {
    let mut shard: Shard<Vec<usize>> = Shard::new();
    let key = "h";
    let val = fill_at(&mut shard, key, 0, 200, usize_vec);
    assert_eq!(vec![5, 4, 3, 2, 1, 0], val);

    let val = fill_at(&mut shard, key, 201, 500, usize_vec2);
    assert_eq!(vec![5, 4, 3, 2, 1, 1], val);
}

#[test]
fn crude_cache_update_test() {
    let mut shard: Shard<Vec<usize>> = Shard::new();
    let val = fill_at(&mut shard, "h", 0, 200, usize_vec);
    assert_eq!(vec![5, 4, 3, 2, 1, 0], val);
    // still live: the new compute step is not run
    let val = fill_at(&mut shard, "h", 199, 500, usize_vec2);
    assert_eq!(vec![5, 4, 3, 2, 1, 0], val);
    let val = fill_at(&mut shard, "h", 201, 500, usize_vec2);
    assert_eq!(vec![5, 4, 3, 2, 1, 1], val);
    assert_eq!(201 + 500, shard.entry("h").unwrap().instant);
}

#[test]
fn never_written_key_is_absent() {
    let mut shard: Shard<u32> = Shard::new();
    assert_eq!(None, shard.get_fresh("k", 0));
    shard.store("a".to_string(), 1, 0, 100);
    shard.store("b".to_string(), 2, 0, 100);
    assert!(shard.remove("a"));
    assert_eq!(None, shard.get_fresh("k", 50));
    assert!(shard.entry("k").is_none());
}

#[test]
fn warm_key_never_computes() {
    let mut shard: Shard<u32> = Shard::new();
    shard.store("k".to_string(), 7, 10, 100);
    let calls = Cell::new(0u32);
    let v = fill_at(&mut shard, "k", 50, 100, || {
        calls.set(calls.get() + 1);
        9
    });
    assert_eq!(7, v);
    assert_eq!(0, calls.get());
}

#[test]
fn cold_key_computes_once_then_is_reused() {
    let mut shard: Shard<u32> = Shard::new();
    let calls = Cell::new(0u32);
    let compute = || {
        calls.set(calls.get() + 1);
        42
    };
    assert_eq!(42, fill_at(&mut shard, "k", 0, 60, compute));
    assert_eq!(1, calls.get());
    assert_eq!(42, fill_at(&mut shard, "k", 30, 60, compute));
    assert_eq!(1, calls.get());
    // expired: a new fill episode runs the compute step once more
    assert_eq!(42, fill_at(&mut shard, "k", 60, 60, compute));
    assert_eq!(2, calls.get());
}

#[test]
fn protocol_steps_in_order() {
    let mut phase = start();
    assert_eq!(FillPhase::Reading, phase);
    assert!(matches!(step::<u8>(&mut phase, FillEvent::ReadDone(None)), FillAction::AcquireWrite));
    assert_eq!(FillPhase::Locked, phase);
    assert!(matches!(step::<u8>(&mut phase, FillEvent::Rechecked(None)), FillAction::RunCompute));
    assert_eq!(FillPhase::Computing, phase);
    assert!(matches!(step(&mut phase, FillEvent::Computed(3u8)), FillAction::StoreAndReturn(3)));
    assert_eq!(FillPhase::Finished, phase);
    assert!(matches!(step(&mut phase, FillEvent::Computed(4u8)), FillAction::Ignore));
    assert_eq!(FillPhase::Finished, phase);
}

#[test]
fn protocol_returns_value_found_under_lock() {
    let mut phase = start();
    assert!(matches!(step::<u8>(&mut phase, FillEvent::ReadDone(None)), FillAction::AcquireWrite));
    assert!(matches!(step(&mut phase, FillEvent::Rechecked(Some(8u8))), FillAction::Return(8)));
    assert_eq!(FillPhase::Finished, phase);
}

#[test]
fn protocol_ignores_out_of_turn_events() {
    let mut phase = start();
    assert!(matches!(step(&mut phase, FillEvent::Computed(1u8)), FillAction::Ignore));
    assert!(matches!(step(&mut phase, FillEvent::Rechecked(Some(1u8))), FillAction::Ignore));
    assert_eq!(FillPhase::Reading, phase);
    assert!(matches!(step(&mut phase, FillEvent::ReadDone(Some(5u8))), FillAction::Return(5)));
}

#[test]
fn remove_reports_presence() {
    let mut shard: Shard<u32> = Shard::new();
    assert!(!shard.remove("k"));
    shard.store("k".to_string(), 1, 0, 10);
    assert!(shard.remove("k"));
    assert_eq!(None, shard.get_fresh("k", 5));
    assert!(!shard.remove("k"));
    // an expired entry that was never read is still there to remove
    shard.store("k".to_string(), 1, 0, 10);
    assert_eq!(None, shard.get_fresh("k", 20));
    assert!(shard.remove("k"));
    assert!(shard.entry("k").is_none());
}

#[test]
fn store_overwrites_regardless_of_remaining_ttl() {
    let mut shard: Shard<u32> = Shard::new();
    shard.store("k".to_string(), 1, 0, 1000);
    shard.store("k".to_string(), 2, 10, 5);
    assert_eq!(Some(&2), shard.get_fresh("k", 12));
    assert_eq!(None, shard.get_fresh("k", 15));
}

#[test]
fn item_lives_strictly_before_its_instant() {
    let item = Item::expiring("v", 100, 50);
    assert_eq!(150, item.instant);
    assert_eq!("v", item.value);
    assert!(item.is_live(100));
    assert!(item.is_live(149));
    assert!(!item.is_live(150));
    assert!(!item.is_live(151));
    let mut shard: Shard<&str> = Shard::new();
    shard.insert("x".to_string(), Item::expiring("v", 0, 0));
    assert_eq!(None, shard.get_fresh("x", 0));
}

#[test]
fn shard_index_is_hash_modulo_count() {
    assert_eq!(2, shard_index(130, 64));
    assert_eq!(0, shard_index(128, 64));
    assert_eq!(0, shard_index(u64::MAX, 1));
    assert_eq!(u64::MAX as usize % 7, shard_index(u64::MAX, 7));
}

#[test]
fn route_is_stable_and_in_range() {
    let map: ShardedMap<u32> = ShardedMap::new(64);
    assert_eq!(64, map.num_shards());
    for key in ["", "0000", "yxyxyxyxyx", "get_big_data", "h"] {
        let r = map.route(key);
        assert!(r < 64);
        assert_eq!(r, map.route(&key.to_string()));
    }
    let one: ShardedMap<u32> = ShardedMap::new(1);
    assert_eq!(0, one.route("anything"));
    // the route of a key does not change while the map lives, and differs between keys
    let routes: Vec<usize> = (0..256).map(|i| map.route(&format!("key{i}"))).collect();
    assert!(routes.iter().any(|r| *r != routes[0]));
}

#[test]
fn shard_test() {
    let map: ShardedMap<String> = ShardedMap::new(64);
    let a = "0000";
    let b = "yxyxyxyxyx";
    let held = map.get_shard(a).try_write().expect("unlocked at first");
    // the same key waits for the holder
    assert!(map.get_shard(a).try_write().is_err());
    assert!(map.get_shard(a).try_read().is_err());
    let other = map.get_shard(b).try_write();
    if map.route(a) == map.route(b) {
        assert!(other.is_err());
    } else {
        assert!(other.is_ok());
    }
    drop(other);
    drop(held);
    assert!(map.get_shard(a).try_write().is_ok());
}

#[test]
fn shards_start_empty_and_are_writable_through_locks() {
    let map: ShardedMap<String> = ShardedMap::new(8);
    {
        let mut guard = map.get_shard("k").try_write().unwrap();
        assert_eq!(None, guard.get_fresh("k", 0));
        guard.store("k".to_string(), "v".to_string(), 0, 60);
    }
    let guard = map.get_shard("k").try_read().unwrap();
    assert_eq!(Some(&"v".to_string()), guard.get_fresh("k", 59));
    assert_eq!(None, guard.get_fresh("k", 60));
}
