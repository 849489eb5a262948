use win_glide::geometry::Rect;
use win_glide::overlay::{
    back_buffer, buffer_after_commit, can_plan_buffers, can_size_surface, SurfaceBuffer,
    can_clear_rows, clear_active_rows, text_scan_window, ScanWindow, arrow_layout, buffer_reallocation, centered_text_rect, help_text, overlay_placement,
    owner_is_topmost, surface_size, ArrowDirection, ArrowLayout, Placement, BUFFER_SLACK,
    INDICATOR_OPACITY, OVERLAY_TOP_EXTENSION,
};

fn rect(left: i32, top: i32, right: i32, bottom: i32) -> Rect {
    Rect { left, top, right, bottom }
}

#[test]
fn overlay_extends_above_the_window() {
    assert_eq!(OVERLAY_TOP_EXTENSION, 7);
    assert_eq!(INDICATOR_OPACITY, 204);
    assert_eq!(
        overlay_placement(rect(100, 100, 500, 400)),
        Placement { x: 100, y: 93, width: 400, height: 307 }
    );
}

#[test]
fn surface_sizes_follow_the_window() {
    assert_eq!(surface_size(rect(100, 100, 150, 150)), Some((50, 50 + OVERLAY_TOP_EXTENSION)));
    assert_eq!(surface_size(rect(100, 100, 500, 500)), Some((400, 400 + OVERLAY_TOP_EXTENSION)));
    assert_eq!(surface_size(rect(100, 100, 100, 500)), None);
    assert_eq!(surface_size(rect(100, 100, 200, 93)), None);
    assert_eq!(surface_size(rect(100, 100, 200, 94)), Some((100, 1)));
}

#[test]
fn buffers_are_reused_when_large_enough() {
    assert_eq!(buffer_reallocation(true, true, 556, 563, 300, 307), None);
    assert_eq!(buffer_reallocation(true, true, 556, 563, 250, 257), None);
    // Growing past the cache reallocates with slack.
    assert_eq!(buffer_reallocation(true, true, 556, 563, 600, 607), Some((600 + 256, 607 + 256)));
    assert_eq!(BUFFER_SLACK, 256);
    // Missing buffers are always (re)allocated.
    assert_eq!(buffer_reallocation(false, true, 5000, 5000, 300, 307), Some((556, 563)));
    assert_eq!(buffer_reallocation(true, false, 5000, 5000, 300, 307), Some((556, 563)));
}

#[test]
fn arrows_point_outwards_when_expanding_and_inwards_when_shrinking() {
    assert_eq!(
        arrow_layout(true),
        ArrowLayout {
            top: ArrowDirection::Up,
            bottom: ArrowDirection::Down,
            left: ArrowDirection::Left,
            right: ArrowDirection::Right
        }
    );
    assert_eq!(
        arrow_layout(false),
        ArrowLayout {
            top: ArrowDirection::Down,
            bottom: ArrowDirection::Up,
            left: ArrowDirection::Right,
            right: ArrowDirection::Left
        }
    );
}

#[test]
fn help_text_depends_on_the_modifiers() {
    assert_eq!(help_text(true, false), "Press the [Arrow keys] to push the window borders outwards.");
    assert_eq!(help_text(true, true), "Press the [Arrow keys] to push the window borders outwards.");
    assert_eq!(help_text(false, true), "Press the [Arrow keys] to pull the window borders inwards.");
    assert!(help_text(false, false).starts_with("Press [Arrow keys] to move the window around.\n"));
    assert_eq!(help_text(false, false).lines().count(), 3);
}

#[test]
fn text_is_centered_in_its_area() {
    let target = rect(76, 83, 324, 324);
    assert_eq!(centered_text_rect(target, 100, 41), rect(150, 183, 250, 224));
    // Odd slack rounds down.
    assert_eq!(centered_text_rect(target, 101, 40), rect(149, 183, 250, 223));
    // Text larger than the area starts at its corner.
    assert_eq!(centered_text_rect(target, 400, 300), rect(76, 83, 476, 383));
}

#[test]
fn topmost_style_bit() {
    assert!(owner_is_topmost(0x0000_0008));
    assert!(owner_is_topmost(0x0008_0108));
    assert!(!owner_is_topmost(0x0008_0100));
}

#[test]
fn clearing_touches_only_the_active_part_of_each_row() {
    let mut pixels = vec![7u8; 30];
    // Rows of 8 bytes, 3 active bytes each; all 4 rows fit in 30 bytes.
    assert!(can_clear_rows(8, 3, 4));
    clear_active_rows(&mut pixels, 8, 3, 4);
    let mut expected = vec![7u8; 30];
    for row in 0..4 {
        for c in 0..3 {
            expected[row * 8 + c] = 0;
        }
    }
    assert_eq!(pixels, expected);
    // A row that does not fit entirely is left alone.
    let mut short = vec![9u8; 10];
    clear_active_rows(&mut short, 8, 3, 2);
    assert_eq!(short, vec![0, 0, 0, 9, 9, 9, 9, 9, 9, 9]);
    let mut shorter = vec![9u8; 10];
    clear_active_rows(&mut shorter, 8, 4, 2);
    assert_eq!(shorter, vec![0, 0, 0, 0, 9, 9, 9, 9, 9, 9]);
    assert!(!can_clear_rows(usize::MAX, 2, 2));
    assert!(can_clear_rows(usize::MAX, 0, 1));
}

#[test]
fn text_scan_window_is_clipped_to_the_surface() {
    assert_eq!(
        text_scan_window(rect(10, 20, 110, 60), 400, 307),
        ScanWindow { top: 20, bottom: 60, left: 10, right: 110 }
    );
    assert_eq!(
        text_scan_window(rect(-5, -3, 500, 400), 400, 307),
        ScanWindow { top: 0, bottom: 307, left: 0, right: 400 }
    );
    assert_eq!(
        text_scan_window(rect(-50, -30, -10, -1), 400, 307),
        ScanWindow { top: 0, bottom: 307, left: 0, right: 400 }
    );
}

#[test]
fn surface_size_does_not_need_the_header_position() {
    // The window's top may sit at the very bottom of the coordinate range.
    let r = rect(0, i32::MIN, 100, i32::MIN + 50);
    assert!(can_size_surface(r));
    assert_eq!(surface_size(r), Some((100, 57)));
    assert!(!can_size_surface(rect(0, 0, 10, i32::MAX)));
}

#[test]
fn reused_buffers_need_no_headroom() {
    assert!(can_plan_buffers(true, true, i32::MAX, i32::MAX, i32::MAX, i32::MAX));
    assert_eq!(buffer_reallocation(true, true, i32::MAX, i32::MAX, i32::MAX, i32::MAX), None);
    assert!(!can_plan_buffers(false, true, i32::MAX, i32::MAX, i32::MAX, i32::MAX));
    assert!(can_plan_buffers(false, true, 0, 0, 300, 307));
}

#[test]
fn double_buffering_alternates_on_successful_uploads() {
    assert_eq!(back_buffer(false), SurfaceBuffer::A);
    assert_eq!(back_buffer(true), SurfaceBuffer::B);
    let after_one = buffer_after_commit(false, true);
    assert_eq!(back_buffer(after_one), SurfaceBuffer::B);
    assert_eq!(back_buffer(buffer_after_commit(after_one, true)), SurfaceBuffer::A);
    assert_eq!(buffer_after_commit(after_one, false), after_one);
}
