use win_glide::geometry::{can_keep_visible, virtual_screen_in_range, Rect};
use win_glide::overlay::{can_center_text, can_place};
use win_glide::session::{can_reconcile, ArrowKeys};
use win_glide::window::can_center;

fn rect(left: i32, top: i32, right: i32, bottom: i32) -> Rect {
    Rect { left, top, right, bottom }
}

#[test]
fn ordinary_rectangles_are_in_range() {
    let w = rect(100, 100, 500, 400);
    let vs = rect(-1920, 0, 1920, 1080);
    assert!(can_center(w, rect(0, 0, 1920, 1040)));
    assert!(can_keep_visible(w, 300, 200, vs));
    assert!(virtual_screen_in_range(-1920, 0, 3840, 1080));
    let keys = ArrowKeys { left: true, up: false, right: false, down: false };
    assert!(can_reconcile(w, rect(50, 100, 500, 400), true, keys));
    assert!(can_place(w));
    assert!(can_center_text(rect(76, 83, 324, 324), 100, 41));
}

#[test]
fn overflowing_rectangles_are_rejected() {
    let huge = rect(i32::MIN, 0, i32::MAX, 10);
    assert!(!can_center(huge, rect(0, 0, 1920, 1040)));
    assert!(!can_center(rect(0, 0, 10, 10), huge));
    // Clamping near the edge of the i32 range.
    assert!(!can_keep_visible(rect(0, 0, 400, 300), 0, 0, rect(i32::MIN, 0, 1920, 1080)));
    assert!(!can_keep_visible(rect(0, 0, 400, 300), i32::MAX, 0, rect(0, 0, i32::MAX, 1080)));
    assert!(!virtual_screen_in_range(i32::MAX, 0, 1, 1));
    let keys = ArrowKeys { left: true, up: false, right: false, down: false };
    assert!(!can_reconcile(rect(i32::MAX - 10, 0, i32::MAX, 10), rect(0, 0, 100, 10), true, keys));
    // Without Alt the pinned edges are not computed.
    assert!(can_reconcile(rect(i32::MAX - 10, 0, i32::MAX, 10), rect(0, 0, 100, 10), false, keys));
    assert!(!can_place(rect(0, i32::MIN, 10, 10)));
    assert!(!can_center_text(rect(0, 0, 100, 100), i32::MIN, 10));
}
