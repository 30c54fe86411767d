use aw_watcher_screenshot::config::CaptureConfig;
use aw_watcher_screenshot::gate::{should_skip, FilterProcessor, MonitorState};

fn policy() -> CaptureConfig {
    CaptureConfig { force_interval_secs: 60, dhash_threshold: 10 }
}

#[test]
fn gate_first_frame_emits() {
    let cfg = policy();
    let mut st = MonitorState::new();
    assert!(!should_skip(&cfg, 0x42, 1_000, &mut st));
    assert_eq!(st.last_dhash, Some(0x42));
    assert_eq!(st.last_time, Some(1_000));
}

#[test]
fn gate_debounce_skips_even_changed_frames() {
    let cfg = policy();
    let mut st = MonitorState::new();
    assert!(!should_skip(&cfg, 0, 1_000, &mut st));
    // 50 ms later, even a grossly different frame is dropped.
    assert!(should_skip(&cfg, u64::MAX, 1_050, &mut st));
    // State is untouched by the skip.
    assert_eq!(st.last_dhash, Some(0));
    assert_eq!(st.last_time, Some(1_000));
}

#[test]
fn gate_similar_frame_skips_changed_frame_emits() {
    let cfg = policy();
    let mut st = MonitorState::new();
    assert!(!should_skip(&cfg, 0, 1_000, &mut st));
    // Nine differing bits: under the threshold, skipped.
    assert!(should_skip(&cfg, 0x1FF, 3_000, &mut st));
    // Ten differing bits: at the threshold, emitted immediately even
    // though the force interval is nowhere near over.
    assert!(!should_skip(&cfg, 0x3FF, 5_000, &mut st));
    assert_eq!(st.last_dhash, Some(0x3FF));
    assert_eq!(st.last_time, Some(5_000));
}

#[test]
fn gate_identical_frames_emit_once_per_force_window() {
    // Polled every 2 s with identical frames for 3 minutes, the filter
    // emits exactly once per 60 s window: at 0 s, 62 s and 124 s.
    let cfg = policy();
    let mut st = MonitorState::new();
    let mut emitted = Vec::new();
    let mut t: i64 = 0;
    while t <= 180_000 {
        if !should_skip(&cfg, 0xABCD, t, &mut st) {
            emitted.push(t);
        }
        t += 2_000;
    }
    assert_eq!(emitted, vec![0, 62_000, 124_000]);
}

#[test]
fn filter_processor_tracks_monitors_independently() {
    let mut fp = FilterProcessor::new(policy());
    // Both monitors emit their first frame.
    assert!(!fp.check(1, 0, 1_000));
    assert!(!fp.check(2, 0, 1_000));
    // Monitor 1 stays static and is skipped; monitor 2 changes and emits.
    assert!(fp.check(1, 0, 3_000));
    assert!(!fp.check(2, u64::MAX, 3_000));
}
