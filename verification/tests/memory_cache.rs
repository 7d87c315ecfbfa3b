use pokecli::cache::store::CacheStore;
use pokecli::cache::{Cache, MemoryCache};
use serde_json::Value;
use std::time::Duration;

#[test]
fn a_key_never_written_is_absent() {
    let cache = MemoryCache::new();
    assert_eq!(cache.get("pokemon:bulbasaur").unwrap(), None);
    cache.set("pokemon:pikachu", "p".to_string(), Duration::from_secs(3600)).unwrap();
    assert_eq!(cache.get("pokemon:bulbasaur").unwrap(), None);
}

#[test]
fn a_written_value_is_read_back() {
    let cache = MemoryCache::new();
    cache.set("a", "value".to_string(), Duration::from_secs(3600)).unwrap();
    assert_eq!(cache.get("a").unwrap(), Some("value".to_string()));
    assert_eq!(cache.get("a").unwrap(), Some("value".to_string()));
}

#[test]
fn a_zero_ttl_value_is_absent() {
    let cache = MemoryCache::new();
    cache.set("a", "value".to_string(), Duration::from_secs(0)).unwrap();
    assert_eq!(cache.get("a").unwrap(), None);
}

#[test]
fn the_last_write_wins() {
    let cache = MemoryCache::new();
    cache.set("a", "first".to_string(), Duration::from_secs(60)).unwrap();
    cache.set("a", "second".to_string(), Duration::from_secs(3600)).unwrap();
    assert_eq!(cache.get("a").unwrap(), Some("second".to_string()));
    cache.set("a", "third".to_string(), Duration::from_secs(0)).unwrap();
    assert_eq!(cache.get("a").unwrap(), None);
}

#[test]
fn clear_forgets_every_key() {
    let cache = MemoryCache::new();
    cache.set("a", "1".to_string(), Duration::from_secs(3600)).unwrap();
    cache.set("b", "2".to_string(), Duration::from_secs(0)).unwrap();
    cache.clear().unwrap();
    assert_eq!(cache.get("a").unwrap(), None);
    assert_eq!(cache.get("b").unwrap(), None);
    cache.clear().unwrap();
}

#[test]
fn sweep_keeps_what_is_live() {
    let cache = MemoryCache::new();
    cache.set("live", "l".to_string(), Duration::from_secs(3600)).unwrap();
    cache.set("dead", "d".to_string(), Duration::from_nanos(0)).unwrap();
    cache.cleanup_expired();
    assert_eq!(cache.get("live").unwrap(), Some("l".to_string()));
    assert_eq!(cache.get("dead").unwrap(), None);
}

#[test]
fn the_largest_ttl_is_accepted() {
    let cache = MemoryCache::new();
    cache.set("a", "value".to_string(), Duration::MAX).unwrap();
    assert_eq!(cache.get("a").unwrap(), Some("value".to_string()));
}

#[test]
fn a_clone_is_a_handle_to_the_same_store() {
    let cache = MemoryCache::new();
    let other = cache.clone();
    cache.set("a", "value".to_string(), Duration::from_secs(3600)).unwrap();
    assert_eq!(other.get("a").unwrap(), Some("value".to_string()));
    other.clear().unwrap();
    assert_eq!(cache.get("a").unwrap(), None);
    drop(cache);
    other.set("b", "kept".to_string(), Duration::from_secs(3600)).unwrap();
    assert_eq!(other.get("b").unwrap(), Some("kept".to_string()));
}

#[test]
fn default_cache_is_empty() {
    let cache = MemoryCache::default();
    assert_eq!(cache.get("a").unwrap(), None);
}

#[test]
fn a_record_round_trips_through_its_text() {
    let mut record = serde_json::Map::new();
    record.insert("id".to_string(), Value::from(25));
    record.insert("name".to_string(), Value::from("pikachu"));
    let record = Value::Object(record);
    let payload = serde_json::to_string(&record).unwrap();
    assert_eq!(payload, "{\"id\":25,\"name\":\"pikachu\"}");

    let cache = MemoryCache::new();
    cache.set("pokemon:pikachu", payload, Duration::from_secs(3600)).unwrap();
    let found = cache.get("pokemon:pikachu").unwrap().unwrap();
    assert_eq!(found, "{\"id\":25,\"name\":\"pikachu\"}");
    assert_eq!(serde_json::from_str::<Value>(&found).unwrap(), record);
    assert_eq!(cache.get("pokemon:bulbasaur").unwrap(), None);
}

#[test]
fn concurrent_writers_and_readers_complete() {
    let runtime = tokio::runtime::Builder::new_multi_thread().worker_threads(4).build().unwrap();
    let cache = MemoryCache::new();
    let mut workers = Vec::new();
    for n in 0..8u32 {
        let handle = cache.clone();
        workers.push(runtime.spawn_blocking(move || {
            let key = format!("key:{n}");
            handle.set(&key, format!("value {n}"), Duration::from_secs(3600)).unwrap();
        }));
    }
    for _ in 0..4 {
        let handle = cache.clone();
        workers.push(runtime.spawn_blocking(move || {
            for _ in 0..100 {
                assert_eq!(handle.get("unrelated").unwrap(), None);
            }
        }));
    }
    for worker in workers {
        runtime.block_on(worker).unwrap();
    }
    for n in 0..8u32 {
        assert_eq!(cache.get(&format!("key:{n}")).unwrap(), Some(format!("value {n}")));
    }
    assert_eq!(cache.get("key:8").unwrap(), None);
    assert_eq!(cache.get("unrelated").unwrap(), None);
}

#[test]
fn the_write_under_the_lock_sweeps_and_lives_for_the_span() {
    let second: i128 = 1_000_000_000;
    let mut store = CacheStore::new();
    store.set("old", "o".to_string(), 0, 1_000_000_000);
    MemoryCache::write_at(&mut store, "a", "value".to_string(), 5 * second, &Duration::from_secs(2));
    assert_eq!(store.len(), 1);
    assert_eq!(store.get("a", 5 * second), Some("value".to_string()));
    assert_eq!(store.get("a", 7 * second - 1), Some("value".to_string()));
    assert_eq!(store.get("a", 7 * second), None);
    MemoryCache::write_at(&mut store, "b", "short".to_string(), 5 * second, &Duration::from_nanos(1));
    assert_eq!(store.get("b", 5 * second), Some("short".to_string()));
    assert_eq!(store.get("b", 5 * second + 1), None);
    MemoryCache::write_at(&mut store, "c", "never".to_string(), 5 * second, &Duration::ZERO);
    assert_eq!(store.get("c", 5 * second), None);
    assert_eq!(store.len(), 3);
}
