use win_glide::geometry::Rect;
use win_glide::input::InputEvent;
use win_glide::session::{
    is_resizing_requested, reconcile_rect, resize_modifiers, ArrowKeys, EndReason, ExitReason,
    FrameStep, Session, SessionCommand, SyncOutcome, DEFAULT_DPI, IDLE_TIMEOUT_NANOS,
};

fn rect(left: i32, top: i32, right: i32, bottom: i32) -> Rect {
    Rect { left, top, right, bottom }
}

fn active_session() -> Session {
    let mut s = Session::new();
    s.activate(42, rect(100, 100, 500, 400), 144);
    s
}

const NO_KEYS: ArrowKeys = ArrowKeys { left: false, up: false, right: false, down: false };

#[test]
fn new_session_is_inactive_and_running() {
    let s = Session::new();
    assert!(!s.is_active());
    assert!(s.running);
    assert_eq!(s.dpi, DEFAULT_DPI);
    assert_eq!(s.last_modifiers_state, (false, false));
}

#[test]
fn activation_seeds_the_tracked_state() {
    let s = active_session();
    assert_eq!(s.active_window, Some(42));
    assert_eq!(s.window_rect, rect(100, 100, 500, 400));
    assert_eq!(s.last_sent_rect, rect(100, 100, 500, 400));
    assert_eq!(s.dpi, 144);
    assert!(!s.is_resizing_in_progress);
}

#[test]
fn hotkeys_ask_for_activation_or_centering() {
    let mut s = Session::new();
    assert_eq!(s.handle_event(InputEvent::HotkeyTriggered(1337)), SessionCommand::Activate);
    assert_eq!(s.handle_event(InputEvent::HotkeyTriggered(1338)), SessionCommand::CenterForegroundWindow);
    assert_eq!(s.handle_event(InputEvent::HotkeyTriggered(7)), SessionCommand::Nothing);
    let mut a = active_session();
    assert_eq!(a.handle_event(InputEvent::HotkeyTriggered(1338)), SessionCommand::CenterSessionWindow(42));
    assert!(a.is_active());
}

#[test]
fn arrows_are_recorded_only_during_a_session() {
    let mut s = Session::new();
    assert_eq!(s.handle_event(InputEvent::KeyDown(0x25)), SessionCommand::Nothing);
    assert!(!s.is_pressed(0x25));
    let mut a = active_session();
    a.handle_event(InputEvent::KeyDown(0x25));
    a.handle_event(InputEvent::KeyDown(0x26));
    assert!(a.is_pressed(0x25) && a.is_pressed(0x26));
    assert_eq!(a.thrust_direction(), (-1, -1));
    a.handle_event(InputEvent::KeyUp(0x25));
    assert!(!a.is_pressed(0x25));
    assert_eq!(a.thrust_direction(), (0, -1));
}

#[test]
fn opposite_arrows_cancel() {
    let mut a = active_session();
    for vk in [0x25, 0x26, 0x27, 0x28] {
        a.handle_event(InputEvent::KeyDown(vk));
    }
    assert_eq!(a.thrust_direction(), (0, 0));
    a.handle_event(InputEvent::KeyUp(0x25));
    a.handle_event(InputEvent::KeyUp(0x26));
    assert_eq!(a.thrust_direction(), (1, 1));
}

#[test]
fn modifier_presses_keep_the_session() {
    let mut a = active_session();
    assert_eq!(a.handle_event(InputEvent::KeyDown(0xA4)), SessionCommand::Nothing);
    assert_eq!(a.handle_event(InputEvent::KeyDown(0x11)), SessionCommand::Nothing);
    assert!(a.is_active());
    assert!(!a.is_pressed(0xA4));
}

#[test]
fn other_keys_end_the_session() {
    let mut a = active_session();
    a.handle_event(InputEvent::KeyDown(0x27));
    let cmd = a.handle_event(InputEvent::KeyDown(0x1B));
    assert_eq!(cmd, SessionCommand::End { reason: EndReason::NonArrowKey(0x1B), was_active: true });
    assert!(!a.is_active());
    assert!(!a.is_pressed(0x27));
    assert_eq!(a.window_rect, rect(100, 100, 500, 400));
}

#[test]
fn mouse_clicks_end_the_session() {
    let mut a = active_session();
    assert_eq!(
        a.handle_event(InputEvent::MouseButtonDown),
        SessionCommand::End { reason: EndReason::MouseClick, was_active: true }
    );
    assert!(!a.is_active());
    assert_eq!(
        a.handle_event(InputEvent::MouseButtonDown),
        SessionCommand::End { reason: EndReason::MouseClick, was_active: false }
    );
}

#[test]
fn shutdown_stops_the_loop() {
    let mut a = active_session();
    assert_eq!(a.handle_event(InputEvent::Shutdown), SessionCommand::Shutdown { was_active: true });
    assert!(!a.running);
    assert!(!a.is_active());
    let mut s = Session::new();
    assert_eq!(s.handle_event(InputEvent::Shutdown), SessionCommand::Shutdown { was_active: false });
    assert!(!s.running);
}

#[test]
fn deactivating_twice_is_deactivating_once() {
    let mut a = active_session();
    a.detected_min_w = Some(300);
    a.last_modifiers_state = (true, false);
    a.is_resizing_in_progress = true;
    assert!(a.deactivate());
    assert_eq!(a.detected_min_w, None);
    assert_eq!(a.last_modifiers_state, (false, false));
    assert!(!a.is_resizing_in_progress);
    assert!(!a.deactivate());
    assert!(!a.is_active());
}

#[test]
fn idle_and_focus_loss_end_the_session() {
    let a = active_session();
    assert_eq!(a.exit_reason(IDLE_TIMEOUT_NANOS + 1, 42, 9), Some(ExitReason::IdleTimeout));
    assert_eq!(a.exit_reason(IDLE_TIMEOUT_NANOS, 42, 9), None);
    assert_eq!(a.exit_reason(0, 9, 9), None);
    assert_eq!(a.exit_reason(0, 77, 9), Some(ExitReason::FocusLost));
    let s = Session::new();
    assert_eq!(s.exit_reason(u128::MAX, 77, 9), None);
}

#[test]
fn ctrl_or_win_suppress_resize_modifiers() {
    assert_eq!(resize_modifiers(false, false, false, true, false), (true, false));
    assert_eq!(resize_modifiers(false, false, false, false, true), (false, true));
    assert_eq!(resize_modifiers(true, false, false, true, true), (false, false));
    assert_eq!(resize_modifiers(false, false, true, true, false), (false, false));
    assert!(is_resizing_requested(false, false, false, false, true));
    assert!(!is_resizing_requested(false, true, false, true, true));
    assert!(!is_resizing_requested(false, false, false, false, false));
}

#[test]
fn modifier_changes_are_reported_once() {
    let mut a = active_session();
    assert!(a.update_modifiers((true, false)));
    assert!(!a.update_modifiers((true, false)));
    assert!(a.update_modifiers((false, false)));
    assert_eq!(a.last_modifiers_state, (false, false));
}

#[test]
fn moving_clamps_and_reports_whether_to_send() {
    let mut a = active_session();
    let vs = rect(0, 0, 1920, 1080);
    assert!(!a.move_to(100, 100, vs));
    assert!(a.move_to(-1000, 50, vs));
    assert_eq!(a.window_rect, rect(-250, 50, 150, 350));
    a.mark_sent(a.window_rect);
    assert!(!a.move_to(-2000, 50, vs));
}

#[test]
fn sync_without_difference_changes_nothing() {
    let mut a = active_session();
    assert_eq!(a.sync_to_actual(rect(100, 100, 500, 400), true, NO_KEYS), None);
}

#[test]
fn sync_tracks_a_window_moved_elsewhere() {
    let mut a = active_session();
    let out = a.sync_to_actual(rect(200, 150, 600, 450), false, NO_KEYS);
    assert_eq!(out, Some(SyncOutcome { rect: rect(200, 150, 600, 450), needs_correction: false, size_changed: false }));
    assert_eq!(a.window_rect, rect(200, 150, 600, 450));
    assert_eq!(a.last_sent_rect, rect(200, 150, 600, 450));
    assert_eq!(a.detected_min_w, None);
}

#[test]
fn sync_pins_the_left_edge_when_shrinking_from_the_right() {
    // Tracked 400x300 at (100,100); the window refused to go below 450 wide
    // and grew to the left instead.
    let mut a = active_session();
    let keys = ArrowKeys { left: true, up: false, right: false, down: false };
    let out = a.sync_to_actual(rect(50, 100, 500, 400), true, keys).unwrap();
    assert!(out.needs_correction);
    assert!(out.size_changed);
    assert_eq!(out.rect, rect(100, 100, 550, 400));
    assert_eq!(a.detected_min_w, Some(450));
    assert_eq!(a.detected_min_h, None);
}

#[test]
fn reconcile_pins_the_other_edges() {
    let old = rect(100, 100, 500, 400);
    let right = ArrowKeys { left: false, up: false, right: true, down: false };
    assert_eq!(reconcile_rect(old, rect(100, 100, 550, 400), true, right), (rect(50, 100, 500, 400), true));
    let up = ArrowKeys { left: false, up: true, right: false, down: false };
    assert_eq!(reconcile_rect(old, rect(100, 80, 500, 400), true, up), (rect(100, 100, 500, 420), true));
    let down = ArrowKeys { left: false, up: false, right: false, down: true };
    assert_eq!(reconcile_rect(old, rect(100, 100, 500, 450), true, down), (rect(100, 50, 500, 400), true));
    // Already in place, or not shrinking: nothing to correct.
    assert_eq!(reconcile_rect(old, rect(50, 100, 500, 400), true, right), (rect(50, 100, 500, 400), false));
    assert_eq!(reconcile_rect(old, rect(50, 100, 500, 400), false, right), (rect(50, 100, 500, 400), false));
}

#[test]
fn resize_steps_track_the_overlay_until_committed() {
    let mut a = active_session();
    a.resize_step(rect(100, 100, 520, 400));
    assert!(a.is_resizing_in_progress);
    assert_eq!(a.window_rect, rect(100, 100, 520, 400));
    assert_eq!(a.last_sent_rect, rect(100, 100, 520, 400));
    a.finish_resize();
    assert!(!a.is_resizing_in_progress);
    a.detected_min_h = Some(500);
    a.clear_detected_minimums();
    assert_eq!(a.detected_min_h, None);
}

#[test]
fn centering_the_session_window_tracks_it() {
    let mut a = active_session();
    assert!(a.is_session_window(42));
    assert!(!a.is_session_window(43));
    a.apply_centered(rect(760, 390, 1160, 690));
    assert_eq!(a.window_rect, rect(760, 390, 1160, 690));
    assert!(!Session::new().is_session_window(42));
}

#[test]
fn leaving_resize_mode_commits_a_pending_resize() {
    let mut a = active_session();
    assert_eq!(a.frame_step(true), FrameStep::Resize);
    assert_eq!(a.frame_step(false), FrameStep::Move { commit_pending_resize: false });
    a.resize_step(rect(100, 100, 520, 400));
    assert_eq!(a.frame_step(false), FrameStep::Move { commit_pending_resize: true });
    assert!(!a.resize_settled(false));
    assert!(a.resize_settled(true));
    a.finish_resize();
    assert!(!a.resize_settled(true));
}

#[test]
fn resize_redraws_only_on_integer_size_changes() {
    let a = active_session();
    // Shifted but same size: no redraw.
    assert!(!a.resize_needs_redraw(rect(90, 100, 490, 400)));
    assert!(a.resize_needs_redraw(rect(100, 100, 501, 400)));
    assert!(a.resize_needs_redraw(rect(100, 99, 500, 400)));
}
