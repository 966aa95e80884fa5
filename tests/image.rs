use raytracer::frame::{image_height, scan_order, AspectRatio};
use raytracer::ppm::{header, pixel_line};

fn wide() -> AspectRatio {
    AspectRatio::new(16, 9).unwrap()
}

fn text(bytes: Vec<u8>) -> String {
    String::from_utf8(bytes).unwrap()
}

#[test]
fn height_of_default_image() {
    assert_eq!(image_height(400, wide()), 225);
}

#[test]
fn header_of_default_image() {
    let h = image_height(400, wide());
    let out = text(header(400, h));
    assert_eq!(out, "P3\n400 225\n255\n");
    assert!(out.lines().any(|l| l == "400 225"));
}

#[test]
fn narrow_image_gets_one_row() {
    assert_eq!(image_height(1, wide()), 1);
    assert_eq!(image_height(0, wide()), 1);
    assert_eq!(image_height(1, AspectRatio::new(3, 1).unwrap()), 1);
}

#[test]
fn height_floors_the_quotient() {
    assert_eq!(image_height(10, wide()), 5);
    assert_eq!(image_height(256, AspectRatio::new(1, 1).unwrap()), 256);
    assert_eq!(image_height(100, AspectRatio::new(1, 2).unwrap()), 200);
}

#[test]
fn largest_width_does_not_overflow() {
    let tall = AspectRatio::new(1, u32::MAX).unwrap();
    assert_eq!(image_height(u32::MAX, tall), (u32::MAX as u64) * (u32::MAX as u64));
}

#[test]
fn zero_term_ratio_is_refused() {
    assert!(AspectRatio::new(0, 9).is_none());
    assert!(AspectRatio::new(16, 0).is_none());
    let a = AspectRatio::new(2, 1).unwrap();
    assert_eq!((a.width, a.height), (2, 1));
}

#[test]
fn two_by_one_scene_has_two_pixel_lines() {
    let a = AspectRatio::new(2, 1).unwrap();
    let h = image_height(2, a);
    assert_eq!(h, 1);
    let order = scan_order(2, h);
    assert_eq!(order, vec![(0, 0), (1, 0)]);
    assert_eq!(text(header(2, h)), "P3\n2 1\n255\n");
}

#[test]
fn scan_order_is_row_major() {
    let order = scan_order(3, 2);
    assert_eq!(order, vec![(0, 0), (1, 0), (2, 0), (0, 1), (1, 1), (2, 1)]);
}

#[test]
fn scan_order_of_empty_image() {
    assert!(scan_order(0, 5).is_empty());
    assert!(scan_order(5, 0).is_empty());
}

#[test]
fn pixel_line_writes_channels() {
    assert_eq!(text(pixel_line(255, 127, 0)), "255 127 0\n");
    assert_eq!(text(pixel_line(9, 10, 100)), "9 10 100\n");
}

#[test]
fn pixel_line_keeps_out_of_range_values() {
    assert_eq!(text(pixel_line(-1, 256, 1000)), "-1 256 1000\n");
    assert_eq!(
        text(pixel_line(i64::MIN, i64::MAX, 0)),
        "-9223372036854775808 9223372036854775807 0\n"
    );
}

#[test]
fn header_with_large_height() {
    assert_eq!(text(header(1, u64::MAX)), "P3\n1 18446744073709551615\n255\n");
}
