use mevi::geometry::{calculate_rects, Rect};

#[test]
fn wide_image_is_clipped_and_short_image_centred() {
    let (child, parent) = calculate_rects(800, 600, 1000, 300);
    assert_eq!(child, Rect::new(100, 0, 800, 300));
    assert_eq!(parent, Rect::new(0, 150, 800, 600));
}

#[test]
fn small_image_is_centred_on_both_axes() {
    let (child, parent) = calculate_rects(800, 600, 200, 100);
    assert_eq!(child, Rect::new(0, 0, 200, 100));
    assert_eq!(parent, Rect::new(300, 250, 800, 600));
}

#[test]
fn large_image_is_clipped_on_both_axes() {
    let (child, parent) = calculate_rects(801, 601, 2001, 1001);
    assert_eq!(child, Rect::new(600, 200, 801, 601));
    assert_eq!(parent, Rect::new(0, 0, 801, 601));
}

#[test]
fn image_of_window_size_fills_it() {
    let (child, parent) = calculate_rects(640, 480, 640, 480);
    assert_eq!(child, Rect::new(0, 0, 640, 480));
    assert_eq!(parent, Rect::new(0, 0, 640, 480));
}

#[test]
fn extreme_sizes_do_not_overflow() {
    let (child, parent) = calculate_rects(1, 65535, 65535, 1);
    assert_eq!(child, Rect::new(32767, 0, 1, 1));
    assert_eq!(parent, Rect::new(0, 32767, 1, 65535));
}

#[test]
fn rect_contains_excludes_border() {
    let r = Rect::new(10, 20, 30, 40);
    assert!(r.contains(11, 21));
    assert!(r.contains(39, 59));
    assert!(!r.contains(10, 30));
    assert!(!r.contains(40, 30));
    assert!(!r.contains(20, 20));
    assert!(!r.contains(20, 60));
}
