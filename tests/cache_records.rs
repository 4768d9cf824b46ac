use gh_report::cache::{CacheEntry, CacheManager};

const NOW: i64 = 1_704_931_200;

#[test]
fn test_cache_entry() {
    let entry = CacheEntry::new("key".to_string(), vec![1, 2, 3], NOW);
    assert_eq!(entry.key, "key");
    assert_eq!(entry.data, vec![1, 2, 3]);
    assert_eq!(entry.metadata.size_bytes, 3);
    assert!(!entry.is_expired(NOW));
    let future = NOW + 3600;
    let entry = entry.with_expiration(future);
    assert!(!entry.is_expired(NOW));
    let past = NOW - 3600;
    let expired_entry = CacheEntry::new("key".to_string(), vec![], NOW).with_expiration(past);
    assert!(expired_entry.is_expired(NOW));
}

#[test]
fn cache_freshness_rules() {
    let manager = CacheManager::new("/tmp/cache".to_string(), 24, true);
    assert!(manager.is_fresh(24 * 3600));
    assert!(!manager.is_fresh(24 * 3600 + 1));
    assert!(manager.is_valid_timestamp(NOW - 23 * 3600 - 3599, NOW));
    assert!(!manager.is_valid_timestamp(NOW - 24 * 3600, NOW));
    assert!(manager.is_valid_timestamp(NOW + 10, NOW));
    let compressed = CacheEntry::new("k".to_string(), vec![9], NOW).with_compression(true);
    assert!(compressed.metadata.compressed);
}
