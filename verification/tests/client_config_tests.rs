use aw_watcher_screenshot::client::{
    api_url_of, bucket_url_of, buckets_url_of, default_bucket_id, events_query_params,
    events_url_of, full_bucket_id, heartbeat_url_of, info_url_of, Info,
};
use aw_watcher_screenshot::config::{
    default_region, default_webp_quality, is_lossless_quality, resolve_pulse_time, AwServerConfig,
    CacheConfig, ConfigError, S3Config,
};

#[test]
fn backend_urls() {
    let api = api_url_of("localhost", 5600);
    assert_eq!(api, "http://localhost:5600/api/0");
    assert_eq!(
        bucket_url_of(&api, "aw-watcher-screenshot_host"),
        "http://localhost:5600/api/0/buckets/aw-watcher-screenshot_host"
    );
    assert_eq!(
        heartbeat_url_of(&api, "b", 10),
        "http://localhost:5600/api/0/buckets/b/heartbeat?pulsetime=10"
    );
    assert_eq!(events_url_of(&api, "b"), "http://localhost:5600/api/0/buckets/b/events");
    assert_eq!(buckets_url_of(&api), "http://localhost:5600/api/0/buckets");
    assert_eq!(info_url_of(&api), "http://localhost:5600/api/0/info");
}

#[test]
fn events_query_pairs() {
    let pairs = events_query_params(
        Some("2024-01-01T00:00:00.000+00:00".to_string()),
        None,
        Some(10),
    );
    assert_eq!(pairs.len(), 2);
    assert_eq!(pairs[0].0, "start");
    assert_eq!(pairs[0].1, "2024-01-01T00:00:00.000+00:00");
    assert_eq!(pairs[1].0, "limit");
    assert_eq!(pairs[1].1, "10");
    assert!(events_query_params(None, None, None).is_empty());
}

#[test]
fn bucket_identifiers() {
    assert_eq!(full_bucket_id("aw-watcher-screenshot", "box"), "aw-watcher-screenshot_box");
    assert_eq!(default_bucket_id("box"), "aw-watcher-screenshot_box");
}

#[test]
fn backend_info_value() {
    let info = Info { hostname: "box".to_string(), testing: false };
    assert_eq!(info.hostname, "box");
    assert!(!info.testing);
}

#[test]
fn pulse_time_rule() {
    // At least four capture intervals, else refused; derived when absent.
    assert_eq!(resolve_pulse_time(Some(10), 2), Ok(10));
    assert_eq!(resolve_pulse_time(Some(8), 2), Ok(8));
    assert_eq!(resolve_pulse_time(Some(7), 2), Err(ConfigError::PulseTimeTooSmall));
    assert_eq!(resolve_pulse_time(None, 2), Ok(8));
}

#[test]
fn configuration_defaults() {
    let cache = CacheConfig::default();
    assert_eq!(cache.cache_dir, "cache");
    assert_eq!(cache.webp_quality, 75);

    let s3 = S3Config::default();
    assert!(!s3.enabled);
    assert_eq!(s3.endpoint, "");
    assert!(s3.key_prefix.is_none());

    let aw = AwServerConfig::default();
    assert_eq!(aw.host, "localhost");
    assert_eq!(aw.port, 5600);
    assert_eq!(aw.bucket_id, "aw-watcher-screenshot");
    assert_eq!(aw.timeout_secs, Some(60));
    assert_eq!(aw.pulse_time_secs, Some(10));
    assert_eq!(aw.closing_epsilon_ms, 1);

    assert_eq!(default_webp_quality(), 75);
    assert_eq!(default_region(), "auto");
    assert!(is_lossless_quality(100));
    assert!(!is_lossless_quality(75));
}
