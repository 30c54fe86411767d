use aw_watcher_screenshot::coalesce::AwServerProcessor;
use aw_watcher_screenshot::config::AwServerConfig;
use aw_watcher_screenshot::error::WatcherError;
use aw_watcher_screenshot::event::{AwEvent, UploadImageInfo};

fn server_config(timeout_secs: u64) -> AwServerConfig {
    AwServerConfig {
        host: "localhost".to_string(),
        port: 5600,
        bucket_id: "aw-watcher-screenshot".to_string(),
        hostname: "testhost".to_string(),
        timeout_secs: Some(timeout_secs),
        pulse_time_secs: Some(10),
        closing_epsilon_ms: 1,
    }
}

fn record(name: &str, id: u32, key: &str) -> UploadImageInfo {
    UploadImageInfo::new(name.to_string(), id, key.to_string())
}

fn batch(ts: i64, records: &[(u32, &str, &str)]) -> AwEvent {
    let mut ev = AwEvent::new(ts, "cache/dir".to_string(), None);
    for (id, name, key) in records {
        ev.add_data(*id, record(name, *id, key));
    }
    ev
}

#[test]
fn coalescer_empty_first_batch_is_an_error() {
    let mut proc = AwServerProcessor::new(server_config(60));
    let r = proc.process(batch(1_000, &[]));
    assert!(matches!(r, Err(WatcherError::EmptyFirstBatch)));
}

#[test]
fn coalescer_missing_pulse_time_is_an_error() {
    let mut cfg = server_config(60);
    cfg.pulse_time_secs = None;
    let mut proc = AwServerProcessor::new(cfg);
    let r = proc.process(batch(1_000, &[(1, "m1", "k1")]));
    assert!(matches!(r, Err(WatcherError::PulseTimeMissing)));
}

#[test]
fn coalescer_retains_recently_seen_monitor() {
    // B1 = {m1, m2} at t0; B2 = {} at t0+2s; B3 = {m1} at t0+4s.
    // With a 60 s retention timeout, m2 is still reported at t0+4s.
    let t0: i64 = 1_700_000_000_000;
    let mut proc = AwServerProcessor::new(server_config(60));

    let hbs = proc.process(batch(t0, &[(1, "m1", "k1"), (2, "m2", "k2")])).unwrap();
    assert_eq!(hbs.len(), 1);
    assert_eq!(hbs[0].timestamp_ms, t0);
    assert_eq!(hbs[0].duration_ms, 0);
    assert_eq!(hbs[0].event.datas.len(), 2);

    // An empty batch re-emits the previous content at the new instant,
    // with no closing heartbeat.
    let hbs = proc.process(batch(t0 + 2_000, &[])).unwrap();
    assert_eq!(hbs.len(), 1);
    assert_eq!(hbs[0].timestamp_ms, t0 + 2_000);
    assert_eq!(hbs[0].event.datas.len(), 2);
    assert_eq!(hbs[0].event.datas.get(1).unwrap().object_key, "k1");
    assert_eq!(hbs[0].event.datas.get(2).unwrap().object_key, "k2");

    // A batch with records closes the previous activity one millisecond
    // early and reports m2's retained record beside the fresh m1.
    let hbs = proc.process(batch(t0 + 4_000, &[(1, "m1", "k1b")])).unwrap();
    assert_eq!(hbs.len(), 2);
    assert_eq!(hbs[0].timestamp_ms, t0 + 4_000 - 1);
    assert_eq!(hbs[0].duration_ms, 0);
    assert_eq!(hbs[0].event.datas.len(), 2);
    assert_eq!(hbs[1].timestamp_ms, t0 + 4_000);
    assert_eq!(hbs[1].duration_ms, 0);
    assert_eq!(hbs[1].event.datas.len(), 2);
    assert_eq!(hbs[1].event.datas.get(1).unwrap().object_key, "k1b");
    assert_eq!(hbs[1].event.datas.get(2).unwrap().object_key, "k2");
    assert_eq!(hbs[1].event.datas.get(2).unwrap().monitor_name, "m2");
}

#[test]
fn coalescer_drops_monitor_past_retention() {
    // The same sequence with a 1 s retention timeout drops m2 at t0+4s.
    let t0: i64 = 1_700_000_000_000;
    let mut proc = AwServerProcessor::new(server_config(1));

    proc.process(batch(t0, &[(1, "m1", "k1"), (2, "m2", "k2")])).unwrap();
    proc.process(batch(t0 + 2_000, &[])).unwrap();
    let hbs = proc.process(batch(t0 + 4_000, &[(1, "m1", "k1b")])).unwrap();
    assert_eq!(hbs.len(), 2);
    // The closing heartbeat still caps the old two-monitor activity.
    assert_eq!(hbs[0].event.datas.len(), 2);
    // The new baseline has only the fresh monitor.
    assert_eq!(hbs[1].event.datas.len(), 1);
    assert!(hbs[1].event.datas.get(2).is_none());
    assert_eq!(hbs[1].event.datas.get(1).unwrap().object_key, "k1b");
}

#[test]
fn coalescer_closing_epsilon_is_configurable() {
    let t0: i64 = 1_700_000_000_000;
    let mut cfg = server_config(60);
    cfg.closing_epsilon_ms = 250;
    let mut proc = AwServerProcessor::new(cfg);
    proc.process(batch(t0, &[(1, "m1", "k1")])).unwrap();
    let hbs = proc.process(batch(t0 + 2_000, &[(1, "m1", "k2")])).unwrap();
    assert_eq!(hbs[0].timestamp_ms, t0 + 2_000 - 250);
    assert_eq!(hbs[1].timestamp_ms, t0 + 2_000);
}

#[test]
fn coalescer_state_advances_even_when_send_fails() {
    // The caller may fail to transmit; feeding the next batch still sees
    // the previous one adopted as the baseline.
    let t0: i64 = 1_700_000_000_000;
    let mut proc = AwServerProcessor::new(server_config(60));
    proc.process(batch(t0, &[(1, "m1", "k1")])).unwrap();
    // Pretend the send of the first heartbeat failed; the next batch must
    // still be capped against the adopted baseline.
    let hbs = proc.process(batch(t0 + 2_000, &[(1, "m1", "k2")])).unwrap();
    assert_eq!(hbs.len(), 2);
    assert_eq!(hbs[0].event.datas.get(1).unwrap().object_key, "k1");
    assert_eq!(hbs[1].event.datas.get(1).unwrap().object_key, "k2");
}
