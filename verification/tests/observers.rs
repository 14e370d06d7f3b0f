use k8s_maestro::steps::observers::cache::{MemoryTier, TieredCache, CacheStats};
use k8s_maestro::steps::observers::file_event::{FileContent, FileEvent, FileMetadata};
use k8s_maestro::steps::observers::file_observer::{FileObserverBuilder, ObserverModes};
use k8s_maestro::steps::observers::observer_config::{FileFilter, MemoryCacheConfig};
use k8s_maestro::workflows::checkpointing::time::{utc_now, Timestamp};

fn metadata(name: &str, size: u64) -> FileMetadata {
    FileMetadata::new(
        name.to_string(),
        format!("/data/{}", name),
        "text/plain".to_string(),
        size,
        utc_now(),
        utc_now(),
    )
}

#[test]
fn test_file_event_created() {
    let metadata = metadata("test.txt", 100);
    let event = FileEvent::Created(metadata.clone());
    assert!(matches!(event, FileEvent::Created(_)));
}

#[test]
fn test_file_metadata_new() {
    let metadata = metadata("test.txt", 100);
    assert_eq!(metadata.filename, "test.txt");
    assert_eq!(metadata.size, 100);
}

#[test]
fn test_file_content_new() {
    let metadata = metadata("test.txt", 100);
    let content = FileContent::new(metadata.clone(), b"test data".to_vec());
    assert_eq!(content.metadata.filename, "test.txt");
    assert_eq!(content.content, b"test data");
}

#[test]
fn test_observer_config_defaults() {
    let config = MemoryCacheConfig::default();
    assert_eq!(config.max_size_mb, 50);
    assert_eq!(config.max_files, 100);
    assert_eq!(config.ttl_seconds, 3600);
    let filter = FileFilter::default();
    assert!(filter.include_patterns.is_empty());
    assert_eq!(filter.max_file_size_mb, 100);
    assert_eq!(ObserverModes::default(), ObserverModes { channel: false, cache: false, http_service: false });
}

#[test]
fn test_file_observer_builder_requirements() {
    let missing_path = FileObserverBuilder::new().with_channel_mode(true).build();
    assert_eq!(missing_path.err().unwrap().to_string(), "watch_path is required but not provided");
    let no_mode = FileObserverBuilder::new().watch_path("/data").build();
    assert_eq!(no_mode.err().unwrap().to_string(), "at least one observer mode must be enabled");
    let observer = FileObserverBuilder::default()
        .watch_path("/data")
        .with_cache_mode(true, None)
        .with_http_service(true, 8080)
        .build()
        .ok()
        .unwrap();
    assert_eq!(observer.watch_path, "/data");
    assert!(observer.cache.is_some());
    assert_eq!(observer.http_port, Some(8080));
    assert!(observer.modes.http_service);
    assert_eq!(observer.filters.max_file_size_mb, 100);
    let channel_only = FileObserverBuilder::new().watch_path("/x").with_channel_mode(true).build().ok().unwrap();
    assert!(channel_only.cache.is_none());
}

fn content(name: &str, bytes: usize) -> FileContent {
    FileContent::new(metadata(name, bytes as u64), vec![7u8; bytes])
}

#[test]
fn test_memory_tier_hits_misses_and_stale_entries() {
    let config = MemoryCacheConfig { max_size_mb: 1, max_files: 10, ttl_seconds: 60 };
    let mut tier = MemoryTier::new(&config, CacheStats::zero());
    let t0 = Timestamp { secs: 1_000, nanos: 0 };
    tier.put_at("a".to_string(), content("a", 10), t0);
    assert!(tier.get_at("missing", t0).is_none());
    let fresh = tier.get_at("a", Timestamp { secs: 1_060, nanos: 0 }).unwrap();
    assert_eq!(fresh.content.len(), 10);
    let stats = tier.stats();
    assert_eq!(stats.hit_count, 1);
    assert_eq!(stats.miss_count, 1);
    assert_eq!(stats.file_count, 1);
    assert_eq!(stats.memory_usage_bytes, 10);
    assert!(tier.get_at("a", Timestamp { secs: 1_061, nanos: 0 }).is_none());
    let stats = tier.stats();
    assert_eq!(stats.eviction_count, 1);
    assert_eq!(stats.file_count, 0);
    assert_eq!(stats.memory_usage_bytes, 0);
}

#[test]
fn test_memory_tier_evicts_least_recently_used() {
    let config = MemoryCacheConfig { max_size_mb: 1, max_files: 2, ttl_seconds: 3600 };
    let mut tier = MemoryTier::new(&config, CacheStats::zero());
    let t = Timestamp { secs: 5, nanos: 0 };
    tier.put_at("a".to_string(), content("a", 1), t);
    tier.put_at("b".to_string(), content("b", 1), t);
    assert!(tier.get_at("a", t).is_some());
    tier.put_at("c".to_string(), content("c", 1), t);
    assert!(tier.get_at("b", t).is_none());
    assert!(tier.get_at("a", t).is_some());
    assert!(tier.get_at("c", t).is_some());
    let big = 1024 * 1024;
    tier.put_at("big".to_string(), content("big", big), t);
    let stats = tier.stats();
    assert_eq!(stats.file_count, 1);
    assert_eq!(stats.memory_usage_bytes, big as u64);
    assert_eq!(stats.eviction_count, 2);
    tier.put_at("huge".to_string(), content("huge", big + 1), t);
    assert_eq!(tier.stats().file_count, 1);
    tier.delete("big");
    assert_eq!(tier.stats().memory_usage_bytes, 0);
}

#[test]
fn test_tiered_cache_roundtrip() {
    let mut cache = TieredCache::new(MemoryCacheConfig::default());
    cache.put("/data/x".to_string(), content("x", 3));
    let got = cache.get("/data/x").unwrap();
    assert_eq!(got.metadata.filename, "x");
    cache.delete("/data/x");
    assert!(cache.get("/data/x").is_none());
    assert_eq!(cache.stats().miss_count, 1);
}
