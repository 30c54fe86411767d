use aw_watcher_screenshot::coalesce::AwServerProcessor;
use aw_watcher_screenshot::config::{AwServerConfig, CaptureConfig};
use aw_watcher_screenshot::event::{
    CaptureEvent, EncodedFrame, ImageEvent, MonitorImageEvent, UploadImageInfo, UploadS3Info,
};
use aw_watcher_screenshot::gate::FilterProcessor;
use aw_watcher_screenshot::worker::PassthroughProcessor;

fn frame_info(id: u32, name: &str) -> UploadImageInfo {
    UploadImageInfo::new(name.to_string(), id, String::new())
}

#[test]
fn passthrough_carries_every_record() {
    let ts: i64 = 1_700_000_000_000;
    let mut ev = ImageEvent::new(ts, "cache/2023".to_string());
    ev.add_data(1, EncodedFrame { info: frame_info(1, "m1"), data: vec![1, 2, 3] });
    ev.add_data(2, EncodedFrame { info: frame_info(2, "m2"), data: vec![4] });
    let aw = PassthroughProcessor::new().pass(ev);
    assert_eq!(aw.timestamp_ms, ts);
    assert_eq!(aw.local_dir, "cache/2023");
    assert!(aw.s3_info.is_none());
    assert_eq!(aw.datas.len(), 2);
    assert_eq!(aw.datas.get(1).unwrap().monitor_name, "m1");
    assert_eq!(aw.datas.get(2).unwrap().monitor_name, "m2");
}

#[test]
fn into_parts_builds_object_keys_and_keeps_bytes() {
    let ts: i64 = 1_704_164_645_000;
    let mut ev = ImageEvent::new(ts, "cache".to_string());
    ev.add_data(7, EncodedFrame { info: frame_info(7, "m7"), data: vec![9, 9, 9] });
    let dest = UploadS3Info::new("http://s3".to_string(), "shots".to_string(), "agent/".to_string());
    let subdir = ev.get_path_subdir();
    let (aw, bytes) = ev.into_parts_with(dest, &subdir);
    assert_eq!(aw.timestamp_ms, ts);
    let rec = aw.datas.get(7).unwrap();
    assert_eq!(rec.monitor_name, "m7");
    assert_eq!(rec.monitor_id, 7);
    // The configured key prefix leads the object key.
    assert_eq!(rec.object_key, format!("agent/{}/{}_7.webp", subdir, ts));
    // The encoded bytes reach the upload side byte for byte.
    assert_eq!(bytes.get(7).unwrap(), &vec![9u8, 9, 9]);
    let s3 = aw.s3_info.unwrap();
    assert_eq!(s3.bucket, "shots");
}

#[test]
fn encoded_bytes_are_stored_unchanged() {
    let mut ev = ImageEvent::new(0, "cache".to_string());
    let payload = vec![0u8, 255, 17, 3];
    ev.add_data(1, EncodedFrame { info: frame_info(1, "m"), data: payload.clone() });
    assert_eq!(ev.frames.get(1).unwrap().data, payload);
}

#[test]
fn webp_encoding_round_trips_in_memory() {
    // Lossless WebP: decoding the encoded bytes gives back every pixel.
    let buf = image::RgbaImage::from_fn(16, 12, |x, y| {
        image::Rgba([(x * 16) as u8, (y * 20) as u8, 55, 255])
    });
    let img = image::DynamicImage::ImageRgba8(buf.clone());
    let event = MonitorImageEvent::new("m1".to_string(), img, 1_700_000_000_000);
    let bytes = event.to_webp().expect("encoding failed");
    // Determinism: the same event value encodes to the same bytes.
    assert_eq!(bytes, event.to_webp().expect("encoding failed"));
    let decoded = image::load_from_memory(&bytes).expect("decoding failed");
    assert_eq!(decoded.to_rgba8(), buf);
}

#[test]
fn static_screen_three_minutes_reports_three_times() {
    // One monitor, unchanged screen, polled every 2 s for 3 minutes with a
    // 60 s force interval: exactly 3 emit decisions, each followed by a
    // full capture, encode and report cycle.
    let img = image::DynamicImage::new_rgba8(64, 64);
    let mut dedup = FilterProcessor::new(CaptureConfig {
        force_interval_secs: 60,
        dhash_threshold: 10,
    });
    let mut reporter = AwServerProcessor::new(AwServerConfig {
        host: "localhost".to_string(),
        port: 5600,
        bucket_id: "aw-watcher-screenshot".to_string(),
        hostname: "testhost".to_string(),
        timeout_secs: Some(60),
        pulse_time_secs: Some(10),
        closing_epsilon_ms: 1,
    });

    let t0: i64 = 1_700_000_000_000;
    let mut emits = 0;
    let mut heartbeats = 0;
    let mut t: i64 = 0;
    while t <= 180_000 {
        let now = t0 + t;
        let mut captured = CaptureEvent::new(now);
        captured.add_image(1, img.clone(), frame_info(1, "m1"));
        let surviving = dedup.filter_event(captured, now);

        // Encode stage: one encoded frame per surviving capture.
        let mut encoded = ImageEvent::new(now, "cache".to_string());
        if surviving.frames.len() > 0 {
            emits += 1;
            encoded.add_data(1, EncodedFrame { info: frame_info(1, "m1"), data: vec![1] });
        }

        // Report stage: empty batches re-emit, fresh batches delimit.
        let aw = PassthroughProcessor::new().pass(encoded);
        let hbs = reporter.process(aw).unwrap();
        heartbeats += hbs.len();
        t += 2_000;
    }
    assert_eq!(emits, 3);
    // 91 ticks: the first emit gives one heartbeat, the two later emits
    // give a closing and a fresh one each, and the 88 quiet ticks re-emit
    // one heartbeat apiece.
    assert_eq!(heartbeats, 1 + 2 + 2 + 88);
}
