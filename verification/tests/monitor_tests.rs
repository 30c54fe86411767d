use aw_watcher_screenshot::event::ImageInfo;
use aw_watcher_screenshot::monitor::{monitor_fingerprint, sanitize_name, SafeMonitor};

#[test]
fn sanitize_keeps_ascii_letters_and_digits() {
    assert_eq!(sanitize_name("DELL U2720Q!"), "DELLU2720Q");
    assert_eq!(sanitize_name("eDP-1"), "eDP1");
    assert_eq!(sanitize_name("\u{663e}\u{793a}\u{5668}A1"), "A1");
    assert_eq!(sanitize_name(""), "");
}

#[test]
fn fingerprint_uses_crc32_of_geometry() {
    let expected = format!("Dell_{}", crc32fast::hash("1920_1080_0_0".as_bytes()));
    assert_eq!(monitor_fingerprint("Dell", 1920, 1080, 0, 0), expected);
}

#[test]
fn fingerprint_falls_back_to_monitor_prefix() {
    let fp = monitor_fingerprint("!!!", 800, 600, -10, 20);
    let expected = format!("Monitor_{}", crc32fast::hash("800_600_-10_20".as_bytes()));
    assert_eq!(fp, expected);
}

#[test]
fn safe_monitor_identity_and_gate() {
    let mut m = SafeMonitor::new("HDMI-1", 1920, 1080, 0, 0);
    assert_eq!(m.id(), "HDMI-1_1920_1080_0_0");
    // First frame always deserves an event.
    assert!(m.decide(0x1234, 10_000));
    // A similar frame under five seconds later does not.
    assert!(!m.decide(0x1234, 12_000));
    // The same frame after five seconds does again.
    assert!(m.decide(0x1234, 15_000));
    // A grossly different frame goes through immediately.
    assert!(m.decide(0x1234 ^ 0x3FF0, 15_100));
}

#[test]
fn image_info_identity() {
    let mut info: ImageInfo<u8> = ImageInfo::new(3, "LG HDR 4K", 10, -20, 3840, 2160);
    assert_eq!(info.name, "LGHDR4K");
    assert_eq!(info.get_friendly_name(), "LGHDR4K_3840_2160_10_-20");
    assert!(info.payload.is_none());
    info.set_payload(7);
    assert_eq!(info.payload, Some(7));

    let unnamed: ImageInfo<u8> = ImageInfo::new(3, "", 0, 0, 640, 480);
    assert_eq!(unnamed.get_friendly_name(), "Monitor_3_640_480_0_0");

    let copied: ImageInfo<String> = ImageInfo::from_base_info(&unnamed);
    assert_eq!(copied.id, 3);
    assert_eq!(copied.width, 640);
    assert!(copied.payload.is_none());
}
