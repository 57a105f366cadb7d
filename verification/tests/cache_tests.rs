use authcore::cache::CacheStore;

const NOW: u64 = 1_700_000_000;

#[test]
fn set_then_get_returns_value() {
    let mut store: CacheStore<String> = CacheStore::new();
    store.set(&"k1".to_string(), "v1".to_string(), 60, NOW);
    let got = store.get(&"k1".to_string(), NOW + 1);
    assert_eq!(got.map(|s| s.as_str()), Some("v1"));
}

#[test]
fn get_after_ttl_elapsed_misses() {
    let mut store: CacheStore<String> = CacheStore::new();
    store.set(&"k1".to_string(), "v1".to_string(), 60, NOW);
    assert!(store.get(&"k1".to_string(), NOW + 60).is_none());
    assert!(store.get(&"k1".to_string(), NOW + 1000).is_none());
}

#[test]
fn get_missing_key_misses() {
    let store: CacheStore<String> = CacheStore::new();
    assert!(store.get(&"absent".to_string(), NOW).is_none());
}

#[test]
fn set_overwrites_previous_value() {
    let mut store: CacheStore<String> = CacheStore::new();
    store.set(&"k".to_string(), "old".to_string(), 60, NOW);
    store.set(&"k".to_string(), "new".to_string(), 60, NOW);
    assert_eq!(store.get(&"k".to_string(), NOW).map(|s| s.as_str()), Some("new"));
}

#[test]
fn get_del_consumes_entry() {
    let mut store: CacheStore<String> = CacheStore::new();
    store.set(&"tok".to_string(), "user-1".to_string(), 60, NOW);
    let first = store.get_del(&"tok".to_string(), NOW);
    assert_eq!(first.as_deref(), Some("user-1"));
    let second = store.get_del(&"tok".to_string(), NOW);
    assert!(second.is_none());
}

#[test]
fn del_removes_entry() {
    let mut store: CacheStore<String> = CacheStore::new();
    store.set(&"k".to_string(), "v".to_string(), 60, NOW);
    store.del(&"k".to_string());
    assert!(store.get(&"k".to_string(), NOW).is_none());
}

#[test]
fn delete_by_prefix_removes_only_matching_keys() {
    let mut store: CacheStore<String> = CacheStore::new();
    store.set(&"todos:user:7:list:a".to_string(), "l".to_string(), 60, NOW);
    store.set(&"todos:user:7:item:9".to_string(), "i".to_string(), 60, NOW);
    store.set(&"todos:user:8:list:a".to_string(), "other".to_string(), 60, NOW);
    store.set(&"user:email:a@b.cc".to_string(), "u".to_string(), 60, NOW);
    let removed = store.delete_by_prefix(&"todos:user:7:".to_string());
    assert_eq!(removed, 2);
    assert!(store.get(&"todos:user:7:list:a".to_string(), NOW).is_none());
    assert!(store.get(&"todos:user:7:item:9".to_string(), NOW).is_none());
    assert_eq!(store.get(&"todos:user:8:list:a".to_string(), NOW).map(|s| s.as_str()), Some("other"));
    assert_eq!(store.get(&"user:email:a@b.cc".to_string(), NOW).map(|s| s.as_str()), Some("u"));
}

#[test]
fn delete_by_prefix_after_set_makes_get_miss() {
    let mut store: CacheStore<String> = CacheStore::new();
    store.set(&"p:x".to_string(), "v".to_string(), 600, NOW);
    assert!(store.get(&"p:x".to_string(), NOW).is_some());
    store.delete_by_prefix(&"p:".to_string());
    assert!(store.get(&"p:x".to_string(), NOW).is_none());
}

#[test]
fn has_prefix_cases() {
    assert!(authcore::cache::has_prefix("todos:user:1:list:x", "todos:user:1:"));
    assert!(authcore::cache::has_prefix("abc", ""));
    assert!(authcore::cache::has_prefix("abc", "abc"));
    assert!(!authcore::cache::has_prefix("abc", "abcd"));
    assert!(!authcore::cache::has_prefix("abd", "abc"));
}
