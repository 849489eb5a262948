use win_glide::geometry::{keep_partly_visible, virtual_screen_rect, Rect, MIN_VISIBLE};

fn rect(left: i32, top: i32, right: i32, bottom: i32) -> Rect {
    Rect { left, top, right, bottom }
}

#[test]
fn move_inside_desktop_is_kept() {
    let vs = rect(0, 0, 1920, 1080);
    let r = keep_partly_visible(rect(0, 0, 400, 300), 500, 200, vs);
    assert_eq!(r, rect(500, 200, 900, 500));
}

#[test]
fn move_past_left_and_top_keeps_min_visible() {
    let vs = rect(0, 0, 1920, 1080);
    let r = keep_partly_visible(rect(0, 0, 400, 300), -1000, -1000, vs);
    assert_eq!(r, rect(-250, -150, 150, 150));
    assert_eq!(r.right - vs.left, MIN_VISIBLE);
}

#[test]
fn move_past_right_and_bottom_keeps_min_visible() {
    let vs = rect(-1920, 0, 1920, 1080);
    let r = keep_partly_visible(rect(0, 0, 400, 300), 5000, 5000, vs);
    assert_eq!(r, rect(1770, 930, 2170, 1230));
    assert_eq!(vs.right - r.left, MIN_VISIBLE);
}

#[test]
fn virtual_screen_from_metrics() {
    assert_eq!(virtual_screen_rect(-1920, -200, 3840, 1280), rect(-1920, -200, 1920, 1080));
    assert!(rect(0, 0, 10, 10).has_valid_extent());
    assert!(!rect(i32::MIN, 0, i32::MAX, 10).has_valid_extent());
}
