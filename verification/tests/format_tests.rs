use aw_watcher_screenshot::event::{object_key_of, ImageEvent};
use aw_watcher_screenshot::storage::{cache_filename_of, LocalStorage};
use aw_watcher_screenshot::timefmt::{
    civil_from_millis, clamp_timestamp, compact_timestamp_of, i64_to_string, pad2, pad3,
    path_subdir_of, rfc3339_of_millis, rfc3339_utc_of, u128_to_string, u64_to_string,
    MAX_TIMESTAMP_MS,
};
use chrono::{Datelike, Timelike};

#[test]
fn decimal_rendering() {
    assert_eq!(u64_to_string(0), "0");
    assert_eq!(u64_to_string(7), "7");
    assert_eq!(u64_to_string(1234567890), "1234567890");
    assert_eq!(u128_to_string(340282366920938463463374607431768211455), "340282366920938463463374607431768211455");
    assert_eq!(i64_to_string(-56), "-56");
    assert_eq!(i64_to_string(0), "0");
    assert_eq!(pad2(3), "03");
    assert_eq!(pad2(42), "42");
    assert_eq!(pad3(5), "005");
    assert_eq!(pad3(45), "045");
    assert_eq!(pad3(645), "645");
}

#[test]
fn path_subdir_format() {
    assert_eq!(path_subdir_of(2024, 1, 2, 3), "2024/01/02/03");
    assert_eq!(path_subdir_of(1999, 12, 31, 23), "1999/12/31/23");
}

#[test]
fn compact_timestamp_format() {
    assert_eq!(compact_timestamp_of(2024, 1, 2, 3, 4, 5, 6), "20240102_030405006");
}

#[test]
fn civil_fields_match_calendar() {
    // 2000-01-12 01:02:03.004 UTC.
    let c = civil_from_millis(947_638_923_004);
    assert_eq!(c, (2000, 1, 12, 1, 2, 3, 4));
    let dt = chrono::DateTime::from_timestamp_millis(947_638_923_004).unwrap();
    assert_eq!(c.0, dt.year());
    assert_eq!(c.1, dt.month());
    assert_eq!(c.2, dt.day());
    assert_eq!(c.3, dt.hour());
    assert_eq!(c.4, dt.minute());
    assert_eq!(c.5, dt.second());
    assert_eq!(c.6, dt.timestamp_subsec_millis());
}

#[test]
fn event_subdir_matches_calendar() {
    let ms: i64 = 1_700_000_000_000;
    let ev = ImageEvent::new(ms, "cache".to_string());
    let dt = chrono::DateTime::from_timestamp_millis(ms).unwrap();
    assert_eq!(ev.get_path_subdir(), dt.format("%Y/%m/%d/%H").to_string());
    assert_eq!(ev.get_format_timestamp(), dt.format("%Y%m%d_%H%M%S%3f").to_string());
}

#[test]
fn rfc3339_format() {
    assert_eq!(rfc3339_utc_of(2000, 1, 12, 1, 2, 3, 4), "2000-01-12T01:02:03.004+00:00");
    let ms: i64 = 947_638_923_004;
    let dt = chrono::DateTime::from_timestamp_millis(ms).unwrap();
    assert_eq!(
        rfc3339_of_millis(ms),
        dt.to_rfc3339_opts(chrono::SecondsFormat::Millis, false)
    );
}

#[test]
fn object_key_format() {
    assert_eq!(
        object_key_of("", "2024/01/02/03", 1_704_164_645_000, 7),
        "2024/01/02/03/1704164645000_7.webp"
    );
    assert_eq!(
        object_key_of("shots/", "2024/01/02/03", 1_704_164_645_000, 7),
        "shots/2024/01/02/03/1704164645000_7.webp"
    );
}

#[test]
fn cache_filename_format() {
    assert_eq!(cache_filename_of(1_704_164_645_000, 3), "1704164645000_3.webp");
}

#[test]
fn local_storage_target_path() {
    let storage = LocalStorage::from_dir("/tmp/shots".to_string());
    assert_eq!(storage.target_path("a.webp"), "/tmp/shots/a.webp");
}

#[test]
fn timestamps_clamp_into_range() {
    assert_eq!(clamp_timestamp(-5), 0);
    assert_eq!(clamp_timestamp(12345), 12345);
    assert_eq!(clamp_timestamp(i64::MAX), MAX_TIMESTAMP_MS);
}
