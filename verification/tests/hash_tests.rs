use aw_watcher_screenshot::hash::{dhash, dhash_of_grid, hamming_distance};

#[test]
fn screenshot_test_hamming_distance() {
    assert_eq!(hamming_distance(0b0000, 0b0000), 0);
    assert_eq!(hamming_distance(0b0001, 0b0000), 1);
    assert_eq!(hamming_distance(0b1111, 0b0000), 4);
    assert_eq!(hamming_distance(0xFF, 0x00), 8);
}

#[test]
fn filter_test_hamming_distance() {
    assert_eq!(hamming_distance(0b0000, 0b0000), 0);
    assert_eq!(hamming_distance(0b0001, 0b0000), 1);
    assert_eq!(hamming_distance(0b1111, 0b0000), 4);
    assert_eq!(hamming_distance(0xFF, 0x00), 8);
}

#[test]
fn hamming_distance_is_symmetric() {
    let pairs = [(0u64, u64::MAX), (0x1234_5678_9abc_def0, 0x0fed_cba9_8765_4321), (7, 11)];
    for (a, b) in pairs {
        assert_eq!(hamming_distance(a, b), hamming_distance(b, a));
        assert!(hamming_distance(a, b) <= 64);
    }
    assert_eq!(hamming_distance(u64::MAX, 0), 64);
}

#[test]
fn screenshot_test_dhash_identical() {
    // Two identical images should have hamming distance of 0
    let img = image::DynamicImage::new_rgba8(100, 100);
    let hash1 = dhash(&img);
    let hash2 = dhash(&img);
    assert_eq!(hamming_distance(hash1, hash2), 0);
}

#[test]
fn filter_test_dhash_identical() {
    // Two identical images should have hamming distance of 0
    let img = image::DynamicImage::new_rgba8(100, 100);
    let hash1 = dhash(&img);
    let hash2 = dhash(&img);
    assert_eq!(hamming_distance(hash1, hash2), 0);
}

#[test]
fn dhash_is_deterministic() {
    let img = image::DynamicImage::new_rgba8(33, 47);
    assert_eq!(dhash(&img), dhash(&img));
}

#[test]
fn dhash_of_black_image_is_zero() {
    // A uniform image has no pixel darker than its neighbour.
    let img = image::DynamicImage::new_rgba8(64, 64);
    assert_eq!(dhash(&img), 0);
}

#[test]
fn dhash_of_gradient_sets_every_bit() {
    // A strictly increasing 9x8 gradient makes every comparison true.
    let buf = image::RgbaImage::from_fn(9, 8, |x, _y| {
        let v = (x as u8) * 20;
        image::Rgba([v, v, v, 255])
    });
    let img = image::DynamicImage::ImageRgba8(buf);
    assert_eq!(dhash(&img), u64::MAX);
}

#[test]
fn dhash_of_grid_exact_bit() {
    // Only the first comparison of the grid is true: bit zero alone.
    let mut grid = vec![0u8; 72];
    grid[1] = 5;
    assert_eq!(dhash_of_grid(&grid), 1);
}

#[test]
fn dhash_differs_on_different_images() {
    let dark = image::DynamicImage::new_rgba8(32, 32);
    let buf = image::RgbaImage::from_fn(9, 8, |x, _y| {
        let v = (x as u8) * 20;
        image::Rgba([v, v, v, 255])
    });
    let bright = image::DynamicImage::ImageRgba8(buf);
    assert!(hamming_distance(dhash(&dark), dhash(&bright)) > 0);
}
