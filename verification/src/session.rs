//! The glide session state machine: which window is being moved, which
//! arrow keys are held, and how each input event, frame tick and window
//! query changes that state.
//!
//! The floating-point physics (velocity, sub-pixel position) is kept by the
//! application; this state holds everything the decisions depend on.

use std::collections::HashSet;
use vstd::prelude::*;

use crate::geometry::{in_i32, keep_partly_visible, kept_visible_rect, visibility_clamp_fits, Rect};
use crate::input::{
    is_arrow, is_arrow_key, is_modifier, is_modifier_key, InputEvent, CENTER_HOTKEY_ID,
    GLIDE_HOTKEY_ID, VK_DOWN, VK_LEFT, VK_RIGHT, VK_UP,
};

verus! {

broadcast use vstd::std_specs::hash::group_hash_axioms;

/// A session ends automatically after this much time without input.
pub const IDLE_TIMEOUT_NANOS: u128 = 5_000_000_000;

/// The DPI assumed before a window has been measured.
pub const DEFAULT_DPI: u32 = 96;

/// Why an input event ended the session.
#[derive(Debug, Clone, Copy, PartialEq, Eq, Structural)]
pub enum EndReason {
    /// A key that is neither an arrow nor a modifier was pressed.
    NonArrowKey(u32),
    /// A mouse button was clicked.
    MouseClick,
}

/// What the application must do after the session has handled an event.
#[derive(Debug, Clone, Copy, PartialEq, Eq, Structural)]
pub enum SessionCommand {
    /// Nothing beyond the state change already made.
    Nothing,
    /// Try to start a session on the foreground window.
    Activate,
    /// Center the window of the running session.
    CenterSessionWindow(usize),
    /// Center the current foreground window.
    CenterForegroundWindow,
    /// The event ends the session; `was_active` tells whether one was
    /// running (and has now been deactivated).
    End { reason: EndReason, was_active: bool },
    /// Shut down: the session (if any) has been deactivated and the main
    /// loop must stop, together with the input thread.
    Shutdown { was_active: bool },
}

/// Why the session ends on its own.
#[derive(Debug, Clone, Copy, PartialEq, Eq, Structural)]
pub enum ExitReason {
    /// No input for longer than the idle timeout.
    IdleTimeout,
    /// Neither the target window nor the overlay is in the foreground.
    FocusLost,
}

/// What one frame of an active session does.
#[derive(Debug, Clone, Copy, PartialEq, Eq, Structural)]
pub enum FrameStep {
    /// A resize modifier is held: resize (translation velocity is dropped).
    Resize,
    /// Move the window with the glide physics, after committing the pending
    /// resize to the window if there is one.
    Move { commit_pending_resize: bool },
}

/// Which arrow keys the keyboard reports as held.
#[derive(Debug, Clone, Copy, PartialEq, Eq, Structural)]
pub struct ArrowKeys {
    pub left: bool,
    pub up: bool,
    pub right: bool,
    pub down: bool,
}

/// The result of reconciling the tracked rectangle with the window's real
/// one.
#[derive(Debug, Clone, Copy, PartialEq, Eq, Structural)]
pub struct SyncOutcome {
    /// The rectangle the window ends up with (and that is now tracked).
    pub rect: Rect,
    /// Whether the window must be moved to `rect` (it is not there yet).
    pub needs_correction: bool,
    /// Whether the size differs from the previously tracked one.
    pub size_changed: bool,
}

/// The non-floating-point state of the application's glide session.
pub struct Session {
    /// The window being moved (its handle), if a session is active.
    pub active_window: Option<usize>,
    /// The tracked bounding box of the active window.
    pub window_rect: Rect,
    /// The last rectangle handed to the window manager.
    pub last_sent_rect: Rect,
    /// DPI of the active window's monitor.
    pub dpi: u32,
    /// Arrow keys currently held down.
    pub pressed_keys: HashSet<u32>,
    /// Minimum width the target window was seen to enforce.
    pub detected_min_w: Option<i32>,
    /// Minimum height the target window was seen to enforce.
    pub detected_min_h: Option<i32>,
    /// Shift/Alt resize modifiers as seen on the previous frame.
    pub last_modifiers_state: (bool, bool),
    /// A continuous resize has moved the overlay but not yet the window.
    pub is_resizing_in_progress: bool,
    /// The main loop keeps running while this is set.
    pub running: bool,
}

/// Shift/Alt as resize modifiers: both read as released while Ctrl or a
/// Windows key is held (those combinations belong to other shortcuts).
pub open spec fn spec_resize_modifiers(ctrl: bool, lwin: bool, rwin: bool, shift: bool, alt: bool) -> (
    bool,
    bool,
) {
    if ctrl || lwin || rwin {
        (false, false)
    } else {
        (shift, alt)
    }
}

/// Computes the (Shift, Alt) resize modifier state from the raw key states.
pub fn resize_modifiers(ctrl: bool, lwin: bool, rwin: bool, shift: bool, alt: bool) -> (m: (
    bool,
    bool,
))
    ensures
        m == spec_resize_modifiers(ctrl, lwin, rwin, shift, alt),
{
    if ctrl || lwin || rwin {
        (false, false)
    } else {
        (shift, alt)
    }
}

/// Whether the raw key states ask for a resize rather than a move.
pub fn is_resizing_requested(ctrl: bool, lwin: bool, rwin: bool, shift: bool, alt: bool) -> (b:
    bool)
    ensures
        b == (spec_resize_modifiers(ctrl, lwin, rwin, shift, alt).0 || spec_resize_modifiers(
            ctrl,
            lwin,
            rwin,
            shift,
            alt,
        ).1),
        b == (!(ctrl || lwin || rwin) && (shift || alt)),
{
    let (s, a) = resize_modifiers(ctrl, lwin, rwin, shift, alt);
    s || a
}

/// +1 / 0 / -1 contribution of a pair of opposite keys.
pub open spec fn axis(negative: bool, positive: bool) -> int {
    (if positive { 1int } else { 0int }) - (if negative { 1int } else { 0int })
}

/// The tracked rectangle after reconciling it with the window's real one:
/// while Alt (shrink) and an arrow key are held, the edge opposite to the
/// arrow is pinned where it was, so a window that refused to shrink does
/// not drift. The boolean tells whether the window has to be moved.
pub open spec fn reconciled(old: Rect, actual: Rect, alt_down: bool, keys: ArrowKeys) -> (
    Rect,
    bool,
) {
    let w = actual.width();
    let h = actual.height();
    if !alt_down {
        (actual, false)
    } else if keys.left {
        if actual.left != old.left {
            (
                Rect {
                    left: old.left,
                    top: actual.top,
                    right: (old.left + w) as i32,
                    bottom: actual.bottom,
                },
                true,
            )
        } else {
            (actual, false)
        }
    } else if keys.right {
        if actual.left != old.right - w {
            (
                Rect {
                    left: (old.right - w) as i32,
                    top: actual.top,
                    right: old.right,
                    bottom: actual.bottom,
                },
                true,
            )
        } else {
            (actual, false)
        }
    } else if keys.up {
        if actual.top != old.top {
            (
                Rect {
                    left: actual.left,
                    top: old.top,
                    right: actual.right,
                    bottom: (old.top + h) as i32,
                },
                true,
            )
        } else {
            (actual, false)
        }
    } else if keys.down {
        if actual.top != old.bottom - h {
            (
                Rect {
                    left: actual.left,
                    top: (old.bottom - h) as i32,
                    right: actual.right,
                    bottom: old.bottom,
                },
                true,
            )
        } else {
            (actual, false)
        }
    } else {
        (actual, false)
    }
}

/// Every value the reconciliation computes fits in an `i32`.
pub open spec fn reconcile_fits(old: Rect, actual: Rect, alt_down: bool, keys: ArrowKeys) -> bool {
    &&& old.has_i32_extent()
    &&& actual.has_i32_extent()
    &&& (alt_down && keys.left ==> in_i32(old.left + actual.width()))
    &&& (alt_down && !keys.left && keys.right ==> in_i32(old.right - actual.width()))
    &&& (alt_down && !keys.left && !keys.right && keys.up ==> in_i32(old.top + actual.height()))
    &&& (alt_down && !keys.left && !keys.right && !keys.up && keys.down ==> in_i32(
        old.bottom - actual.height(),
    ))
}

/// Tests `reconcile_fits`: whether `reconcile_rect` can compute its result
/// without leaving the `i32` range.
pub fn can_reconcile(old: Rect, actual: Rect, alt_down: bool, keys: ArrowKeys) -> (b: bool)
    ensures
        b == reconcile_fits(old, actual, alt_down, keys),
{
    if !old.has_valid_extent() || !actual.has_valid_extent() {
        return false;
    }
    let w: i64 = actual.right as i64 - actual.left as i64;
    let h: i64 = actual.bottom as i64 - actual.top as i64;
    let v: i64 = if !alt_down {
        0
    } else if keys.left {
        old.left as i64 + w
    } else if keys.right {
        old.right as i64 - w
    } else if keys.up {
        old.top as i64 + h
    } else if keys.down {
        old.bottom as i64 - h
    } else {
        0
    };
    i32::MIN as i64 <= v && v <= i32::MAX as i64
}

/// Reconciles the tracked rectangle `old` with the window's real rectangle
/// `actual` (see `reconciled`).
pub fn reconcile_rect(old: Rect, actual: Rect, alt_down: bool, keys: ArrowKeys) -> (r: (Rect, bool))
    requires
        reconcile_fits(old, actual, alt_down, keys),
    ensures
        r == reconciled(old, actual, alt_down, keys),
        r.0.width() == actual.width(),
        r.0.height() == actual.height(),
        !r.1 ==> r.0 == actual,
{
    let actual_w = actual.right - actual.left;
    let actual_h = actual.bottom - actual.top;
    if alt_down {
        if keys.left {
            if actual.left != old.left {
                return (
                    Rect {
                        left: old.left,
                        top: actual.top,
                        right: old.left + actual_w,
                        bottom: actual.bottom,
                    },
                    true,
                );
            }
        } else if keys.right {
            let corrected_left = old.right - actual_w;
            if actual.left != corrected_left {
                return (
                    Rect {
                        left: corrected_left,
                        top: actual.top,
                        right: old.right,
                        bottom: actual.bottom,
                    },
                    true,
                );
            }
        } else if keys.up {
            if actual.top != old.top {
                return (
                    Rect {
                        left: actual.left,
                        top: old.top,
                        right: actual.right,
                        bottom: old.top + actual_h,
                    },
                    true,
                );
            }
        } else if keys.down {
            let corrected_top = old.bottom - actual_h;
            if actual.top != corrected_top {
                return (
                    Rect {
                        left: actual.left,
                        top: corrected_top,
                        right: actual.right,
                        bottom: old.bottom,
                    },
                    true,
                );
            }
        }
    }
    (actual, false)
}

/// Ending a session twice is the same as ending it once.
pub proof fn lemma_deactivate_idempotent(s0: Session, s1: Session, s2: Session)
    requires
        s1.deactivated_from(&s0),
        s2.deactivated_from(&s1),
    ensures
        s2.same_as(&s1),
        s1.active_window is None,
{
}

/// While shrinking with Alt, the edge opposite to the held arrow stays where
/// the tracked rectangle had it.
pub proof fn lemma_shrink_pins_opposite_edge(old: Rect, actual: Rect, keys: ArrowKeys)
    requires
        reconcile_fits(old, actual, true, keys),
    ensures
        keys.left ==> reconciled(old, actual, true, keys).0.left == old.left,
        !keys.left && keys.right ==> reconciled(old, actual, true, keys).0.right == old.right,
        !keys.left && !keys.right && keys.up ==> reconciled(old, actual, true, keys).0.top
            == old.top,
        !keys.left && !keys.right && !keys.up && keys.down ==> reconciled(
            old,
            actual,
            true,
            keys,
        ).0.bottom == old.bottom,
{
}

impl Session {
    /// Arrow keys only, and none held while no session is running.
    pub open spec fn inv(&self) -> bool {
        forall|k: u32| #[trigger]
            self.pressed_keys@.contains(k) ==> is_arrow_key(k) && self.active_window is Some
    }

    /// Everything but the held keys is equal in `self` and `other`.
    pub open spec fn same_except_keys(&self, other: &Session) -> bool {
        &&& self.active_window == other.active_window
        &&& self.window_rect == other.window_rect
        &&& self.last_sent_rect == other.last_sent_rect
        &&& self.dpi == other.dpi
        &&& self.detected_min_w == other.detected_min_w
        &&& self.detected_min_h == other.detected_min_h
        &&& self.last_modifiers_state == other.last_modifiers_state
        &&& self.is_resizing_in_progress == other.is_resizing_in_progress
        &&& self.running == other.running
    }

    /// `self` and `other` hold the same state.
    pub open spec fn same_as(&self, other: &Session) -> bool {
        self.same_except_keys(other) && self.pressed_keys@ == other.pressed_keys@
    }

    /// `self` is `old` after ending its session, `running` aside: unchanged
    /// if `old` had no session; otherwise no window, no held keys, no
    /// detected minimums, modifiers and resize reset, the rectangles and DPI
    /// kept.
    pub open spec fn ended_from(&self, old: &Session) -> bool {
        if old.active_window is None {
            &&& self.active_window == old.active_window
            &&& self.window_rect == old.window_rect
            &&& self.last_sent_rect == old.last_sent_rect
            &&& self.dpi == old.dpi
            &&& self.detected_min_w == old.detected_min_w
            &&& self.detected_min_h == old.detected_min_h
            &&& self.last_modifiers_state == old.last_modifiers_state
            &&& self.is_resizing_in_progress == old.is_resizing_in_progress
            &&& self.pressed_keys@ == old.pressed_keys@
        } else {
            &&& self.active_window is None
            &&& self.pressed_keys@ == Set::<u32>::empty()
            &&& self.detected_min_w is None
            &&& self.detected_min_h is None
            &&& self.last_modifiers_state == (false, false)
            &&& !self.is_resizing_in_progress
            &&& self.window_rect == old.window_rect
            &&& self.last_sent_rect == old.last_sent_rect
            &&& self.dpi == old.dpi
        }
    }

    /// `self` is `old` after ending its session (see `ended_from`), with
    /// `running` kept.
    pub open spec fn deactivated_from(&self, old: &Session) -> bool {
        self.ended_from(old) && self.running == old.running
    }

    /// A fresh, inactive session.
    pub fn new() -> (s: Session)
        ensures
            s.inv(),
            s.active_window is None,
            s.pressed_keys@ == Set::<u32>::empty(),
            s.window_rect == (Rect { left: 0, top: 0, right: 0, bottom: 0 }),
            s.last_sent_rect == (Rect { left: 0, top: 0, right: 0, bottom: 0 }),
            s.dpi == DEFAULT_DPI,
            s.detected_min_w is None,
            s.detected_min_h is None,
            s.last_modifiers_state == (false, false),
            !s.is_resizing_in_progress,
            s.running,
    {
        Session {
            active_window: None,
            window_rect: Rect { left: 0, top: 0, right: 0, bottom: 0 },
            last_sent_rect: Rect { left: 0, top: 0, right: 0, bottom: 0 },
            dpi: DEFAULT_DPI,
            pressed_keys: HashSet::new(),
            detected_min_w: None,
            detected_min_h: None,
            last_modifiers_state: (false, false),
            is_resizing_in_progress: false,
            running: true,
        }
    }

    /// Whether a session is running.
    pub fn is_active(&self) -> (b: bool)
        ensures
            b == self.active_window is Some,
    {
        self.active_window.is_some()
    }

    /// Whether `key` is currently held.
    pub fn is_pressed(&self, key: u32) -> (b: bool)
        ensures
            b == self.pressed_keys@.contains(key),
    {
        self.pressed_keys.contains(&key)
    }

    /// Starts a session on window `hwnd`, currently at `rect` on a monitor of
    /// `dpi` dots per inch.
    pub fn activate(&mut self, hwnd: usize, rect: Rect, dpi: u32)
        requires
            old(self).inv(),
            old(self).active_window is None,
        ensures
            final(self).inv(),
            final(self).active_window == Some(hwnd),
            final(self).window_rect == rect,
            final(self).last_sent_rect == rect,
            final(self).dpi == dpi,
            final(self).detected_min_w is None,
            final(self).detected_min_h is None,
            final(self).last_modifiers_state == (false, false),
            !final(self).is_resizing_in_progress,
            final(self).running == old(self).running,
            final(self).pressed_keys@ == Set::<u32>::empty(),
    {
        self.active_window = Some(hwnd);
        self.window_rect = rect;
        self.dpi = dpi;
        self.detected_min_w = None;
        self.detected_min_h = None;
        self.last_modifiers_state = (false, false);
        self.is_resizing_in_progress = false;
        self.last_sent_rect = rect;
    }

    /// Ends the session, if one is running. Returns whether one was.
    pub fn deactivate(&mut self) -> (was_active: bool)
        requires
            old(self).inv(),
        ensures
            final(self).inv(),
            was_active == old(self).active_window is Some,
            final(self).deactivated_from(old(self)),
    {
        if self.active_window.is_none() {
            return false;
        }
        self.active_window = None;
        self.pressed_keys.clear();
        self.detected_min_w = None;
        self.detected_min_h = None;
        self.last_modifiers_state = (false, false);
        self.is_resizing_in_progress = false;
        true
    }

    /// The command for hotkey `id`: activation for the glide hotkey,
    /// centering for the center hotkey, nothing for any other.
    pub fn hotkey_command(&self, id: i32) -> (cmd: SessionCommand)
        ensures
            cmd == if id == GLIDE_HOTKEY_ID {
                SessionCommand::Activate
            } else if id == CENTER_HOTKEY_ID {
                match self.active_window {
                    Some(h) => SessionCommand::CenterSessionWindow(h),
                    None => SessionCommand::CenterForegroundWindow,
                }
            } else {
                SessionCommand::Nothing
            },
    {
        if id == GLIDE_HOTKEY_ID {
            SessionCommand::Activate
        } else if id == CENTER_HOTKEY_ID {
            match self.active_window {
                Some(h) => SessionCommand::CenterSessionWindow(h),
                None => SessionCommand::CenterForegroundWindow,
            }
        } else {
            SessionCommand::Nothing
        }
    }

    /// Applies one input event to the session and tells the application
    /// what remains to be done.
    ///
    /// - The glide hotkey asks for activation, the center hotkey for
    ///   centering the session's window (or the foreground window when no
    ///   session runs); other hotkeys change nothing.
    /// - During a session an arrow-key press is recorded, a modifier press
    ///   is ignored and any other key press ends the session. Key presses
    ///   outside a session change nothing.
    /// - A key release forgets that key.
    /// - A mouse click ends the session.
    /// - Shutdown ends the session and stops the main loop.
    pub fn handle_event(&mut self, event: InputEvent) -> (cmd: SessionCommand)
        requires
            old(self).inv(),
        ensures
            final(self).inv(),
            match event {
                InputEvent::HotkeyTriggered(id) => {
                    &&& final(self).same_as(old(self))
                    &&& cmd == if id == GLIDE_HOTKEY_ID {
                        SessionCommand::Activate
                    } else if id == CENTER_HOTKEY_ID {
                        match old(self).active_window {
                            Some(h) => SessionCommand::CenterSessionWindow(h),
                            None => SessionCommand::CenterForegroundWindow,
                        }
                    } else {
                        SessionCommand::Nothing
                    }
                },
                InputEvent::KeyDown(vk) => {
                    if old(self).active_window is None || is_modifier_key(vk) {
                        &&& final(self).same_as(old(self))
                        &&& cmd == SessionCommand::Nothing
                    } else if is_arrow_key(vk) {
                        &&& final(self).same_except_keys(old(self))
                        &&& final(self).pressed_keys@ == old(self).pressed_keys@.insert(vk)
                        &&& cmd == SessionCommand::Nothing
                    } else {
                        &&& final(self).deactivated_from(old(self))
                        &&& cmd == (SessionCommand::End {
                            reason: EndReason::NonArrowKey(vk),
                            was_active: true,
                        })
                    }
                },
                InputEvent::KeyUp(vk) => {
                    &&& final(self).same_except_keys(old(self))
                    &&& final(self).pressed_keys@ == old(self).pressed_keys@.remove(vk)
                    &&& cmd == SessionCommand::Nothing
                },
                InputEvent::MouseButtonDown => {
                    &&& final(self).deactivated_from(old(self))
                    &&& cmd == (SessionCommand::End {
                        reason: EndReason::MouseClick,
                        was_active: old(self).active_window is Some,
                    })
                },
                InputEvent::Shutdown => {
                    &&& final(self).ended_from(old(self))
                    &&& !final(self).running
                    &&& cmd == (SessionCommand::Shutdown {
                        was_active: old(self).active_window is Some,
                    })
                },
            },
            event matches InputEvent::KeyDown(vk) ==> (old(self).active_window is Some && !(0x25
                <= vk <= 0x28) && !(0x10 <= vk <= 0x12 || 0x5B <= vk <= 0x5C || 0xA0 <= vk
                <= 0xA5) ==> {
                &&& cmd == (SessionCommand::End {
                    reason: EndReason::NonArrowKey(vk),
                    was_active: true,
                })
                &&& final(self).active_window is None
            }),
    {
        match event {
            InputEvent::HotkeyTriggered(id) => self.hotkey_command(id),
            InputEvent::KeyDown(vk) => {
                if self.active_window.is_none() || is_modifier(vk) {
                    SessionCommand::Nothing
                } else if is_arrow(vk) {
                    self.pressed_keys.insert(vk);
                    SessionCommand::Nothing
                } else {
                    let was_active = self.deactivate();
                    SessionCommand::End { reason: EndReason::NonArrowKey(vk), was_active }
                }
            },
            InputEvent::KeyUp(vk) => {
                self.pressed_keys.remove(&vk);
                SessionCommand::Nothing
            },
            InputEvent::MouseButtonDown => {
                let was_active = self.deactivate();
                SessionCommand::End { reason: EndReason::MouseClick, was_active }
            },
            InputEvent::Shutdown => {
                let was_active = self.deactivate();
                self.running = false;
                SessionCommand::Shutdown { was_active }
            },
        }
    }

    /// Decides whether the session ends on its own this frame: after more
    /// than `IDLE_TIMEOUT_NANOS` without input, or when the foreground
    /// window is neither the session's window nor the overlay.
    pub fn exit_reason(&self, idle_nanos: u128, foreground: usize, overlay: usize) -> (r: Option<
        ExitReason,
    >)
        ensures
            r == match self.active_window {
                None => None,
                Some(active) => if idle_nanos > IDLE_TIMEOUT_NANOS {
                    Some(ExitReason::IdleTimeout)
                } else if foreground != active && foreground != overlay {
                    Some(ExitReason::FocusLost)
                } else {
                    None
                },
            },
    {
        match self.active_window {
            None => None,
            Some(active) => {
                if idle_nanos > IDLE_TIMEOUT_NANOS {
                    Some(ExitReason::IdleTimeout)
                } else if foreground != active && foreground != overlay {
                    Some(ExitReason::FocusLost)
                } else {
                    None
                }
            },
        }
    }

    /// The direction the held arrow keys push in, one unit per axis:
    /// Right minus Left horizontally, Down minus Up vertically.
    pub fn thrust_direction(&self) -> (d: (i32, i32))
        ensures
            d.0 == axis(self.pressed_keys@.contains(VK_LEFT), self.pressed_keys@.contains(VK_RIGHT)),
            d.1 == axis(self.pressed_keys@.contains(VK_UP), self.pressed_keys@.contains(VK_DOWN)),
            -1 <= d.0 <= 1,
            -1 <= d.1 <= 1,
    {
        let mut x: i32 = 0;
        let mut y: i32 = 0;
        if self.pressed_keys.contains(&VK_LEFT) {
            x = x - 1;
        }
        if self.pressed_keys.contains(&VK_RIGHT) {
            x = x + 1;
        }
        if self.pressed_keys.contains(&VK_UP) {
            y = y - 1;
        }
        if self.pressed_keys.contains(&VK_DOWN) {
            y = y + 1;
        }
        (x, y)
    }

    /// Records this frame's resize modifiers; returns whether they differ
    /// from the previous frame's (the overlay then has to be redrawn).
    pub fn update_modifiers(&mut self, modifiers: (bool, bool)) -> (changed: bool)
        requires
            old(self).inv(),
        ensures
            final(self).inv(),
            changed == (modifiers != old(self).last_modifiers_state),
            final(self).last_modifiers_state == modifiers,
            final(self).active_window == old(self).active_window,
            final(self).window_rect == old(self).window_rect,
            final(self).last_sent_rect == old(self).last_sent_rect,
            final(self).dpi == old(self).dpi,
            final(self).detected_min_w == old(self).detected_min_w,
            final(self).detected_min_h == old(self).detected_min_h,
            final(self).is_resizing_in_progress == old(self).is_resizing_in_progress,
            final(self).running == old(self).running,
            final(self).pressed_keys@ == old(self).pressed_keys@,
    {
        let changed = modifiers.0 != self.last_modifiers_state.0 || modifiers.1
            != self.last_modifiers_state.1;
        if changed {
            self.last_modifiers_state = modifiers;
        }
        changed
    }

    /// Reconciles the tracked rectangle with the rectangle the window really
    /// has (`actual`). Nothing changes when they agree. Otherwise the
    /// reconciled rectangle (see `reconciled`) becomes both the tracked and
    /// the last sent rectangle, and a window that came out wider or taller
    /// than tracked records that width or height as the minimum it enforces.
    pub fn sync_to_actual(&mut self, actual: Rect, alt_down: bool, keys: ArrowKeys) -> (r: Option<
        SyncOutcome,
    >)
        requires
            old(self).inv(),
            actual != old(self).window_rect ==> reconcile_fits(
                old(self).window_rect,
                actual,
                alt_down,
                keys,
            ),
        ensures
            final(self).inv(),
            actual == old(self).window_rect ==> r is None && final(self).same_as(old(self)),
            actual != old(self).window_rect ==> {
                let old_rect = old(self).window_rect;
                let (rect, correct) = reconciled(old_rect, actual, alt_down, keys);
                &&& r == Some(
                    SyncOutcome {
                        rect,
                        needs_correction: correct,
                        size_changed: actual.width() != old_rect.width() || actual.height()
                            != old_rect.height(),
                    },
                )
                &&& final(self).window_rect == rect
                &&& final(self).last_sent_rect == rect
                &&& final(self).detected_min_w == if actual.width() > old_rect.width() {
                    Some(actual.width() as i32)
                } else {
                    old(self).detected_min_w
                }
                &&& final(self).detected_min_h == if actual.height() > old_rect.height() {
                    Some(actual.height() as i32)
                } else {
                    old(self).detected_min_h
                }
                &&& final(self).active_window == old(self).active_window
                &&& final(self).dpi == old(self).dpi
                &&& final(self).last_modifiers_state == old(self).last_modifiers_state
                &&& final(self).is_resizing_in_progress == old(self).is_resizing_in_progress
                &&& final(self).running == old(self).running
                &&& final(self).pressed_keys@ == old(self).pressed_keys@
            },
    {
        if actual == self.window_rect {
            return None;
        }
        let old_rect = self.window_rect;
        let actual_w = actual.right - actual.left;
        let actual_h = actual.bottom - actual.top;
        let (rect, needs_correction) = reconcile_rect(old_rect, actual, alt_down, keys);

        let expected_w = old_rect.right - old_rect.left;
        let expected_h = old_rect.bottom - old_rect.top;
        if actual_w > expected_w {
            self.detected_min_w = Some(actual_w);
        }
        if actual_h > expected_h {
            self.detected_min_h = Some(actual_h);
        }

        self.window_rect = rect;
        self.last_sent_rect = rect;
        let size_changed = actual_w != expected_w || actual_h != expected_h;
        Some(SyncOutcome { rect, needs_correction, size_changed })
    }

    /// Moves the tracked window to `(left, top)` keeping its size and at
    /// least `MIN_VISIBLE` pixels of it on the virtual desktop `vs`. Returns
    /// whether the result differs from the last rectangle sent to the window
    /// manager (only then does the window have to be moved).
    pub fn move_to(&mut self, left: i32, top: i32, vs: Rect) -> (needs_send: bool)
        requires
            old(self).inv(),
            visibility_clamp_fits(old(self).window_rect, left as int, top as int, vs),
        ensures
            final(self).inv(),
            final(self).window_rect == kept_visible_rect(
                old(self).window_rect,
                left as int,
                top as int,
                vs,
            ),
            needs_send == (final(self).window_rect != old(self).last_sent_rect),
            final(self).last_sent_rect == old(self).last_sent_rect,
            final(self).active_window == old(self).active_window,
            final(self).dpi == old(self).dpi,
            final(self).detected_min_w == old(self).detected_min_w,
            final(self).detected_min_h == old(self).detected_min_h,
            final(self).last_modifiers_state == old(self).last_modifiers_state,
            final(self).is_resizing_in_progress == old(self).is_resizing_in_progress,
            final(self).running == old(self).running,
            final(self).pressed_keys@ == old(self).pressed_keys@,
    {
        let new_rect = keep_partly_visible(self.window_rect, left, top, vs);
        self.window_rect = new_rect;
        new_rect != self.last_sent_rect
    }

    /// Records that `rect` was handed to the window manager.
    pub fn mark_sent(&mut self, rect: Rect)
        requires
            old(self).inv(),
        ensures
            final(self).inv(),
            final(self).last_sent_rect == rect,
            final(self).window_rect == old(self).window_rect,
            final(self).active_window == old(self).active_window,
            final(self).dpi == old(self).dpi,
            final(self).detected_min_w == old(self).detected_min_w,
            final(self).detected_min_h == old(self).detected_min_h,
            final(self).last_modifiers_state == old(self).last_modifiers_state,
            final(self).is_resizing_in_progress == old(self).is_resizing_in_progress,
            final(self).running == old(self).running,
            final(self).pressed_keys@ == old(self).pressed_keys@,
    {
        self.last_sent_rect = rect;
    }

    /// One step of a continuous resize that changed the size: the overlay
    /// now shows `rect`, which becomes the tracked and last sent rectangle,
    /// and the window itself still has to be resized (the resize is in
    /// progress).
    pub fn resize_step(&mut self, rect: Rect)
        requires
            old(self).inv(),
        ensures
            final(self).inv(),
            final(self).window_rect == rect,
            final(self).last_sent_rect == rect,
            final(self).is_resizing_in_progress,
            final(self).active_window == old(self).active_window,
            final(self).dpi == old(self).dpi,
            final(self).detected_min_w == old(self).detected_min_w,
            final(self).detected_min_h == old(self).detected_min_h,
            final(self).last_modifiers_state == old(self).last_modifiers_state,
            final(self).running == old(self).running,
            final(self).pressed_keys@ == old(self).pressed_keys@,
    {
        self.is_resizing_in_progress = true;
        self.window_rect = rect;
        self.last_sent_rect = rect;
    }

    /// The window has been resized to the tracked rectangle: the resize is
    /// no longer in progress.
    pub fn finish_resize(&mut self)
        requires
            old(self).inv(),
        ensures
            final(self).inv(),
            !final(self).is_resizing_in_progress,
            final(self).window_rect == old(self).window_rect,
            final(self).last_sent_rect == old(self).last_sent_rect,
            final(self).active_window == old(self).active_window,
            final(self).dpi == old(self).dpi,
            final(self).detected_min_w == old(self).detected_min_w,
            final(self).detected_min_h == old(self).detected_min_h,
            final(self).last_modifiers_state == old(self).last_modifiers_state,
            final(self).running == old(self).running,
            final(self).pressed_keys@ == old(self).pressed_keys@,
    {
        self.is_resizing_in_progress = false;
    }

    /// Forgets the minimum size detected during a resize (called whenever no
    /// resize is requested).
    pub fn clear_detected_minimums(&mut self)
        requires
            old(self).inv(),
        ensures
            final(self).inv(),
            final(self).detected_min_w is None,
            final(self).detected_min_h is None,
            final(self).window_rect == old(self).window_rect,
            final(self).last_sent_rect == old(self).last_sent_rect,
            final(self).active_window == old(self).active_window,
            final(self).dpi == old(self).dpi,
            final(self).last_modifiers_state == old(self).last_modifiers_state,
            final(self).is_resizing_in_progress == old(self).is_resizing_in_progress,
            final(self).running == old(self).running,
            final(self).pressed_keys@ == old(self).pressed_keys@,
    {
        self.detected_min_w = None;
        self.detected_min_h = None;
    }

    /// Whether centering window `hwnd` concerns the running session.
    pub fn is_session_window(&self, hwnd: usize) -> (b: bool)
        ensures
            b == (self.active_window == Some(hwnd)),
    {
        match self.active_window {
            Some(active) => active == hwnd,
            None => false,
        }
    }

    /// The session's window was centered to `rect`: track it.
    pub fn apply_centered(&mut self, rect: Rect)
        requires
            old(self).inv(),
        ensures
            final(self).inv(),
            final(self).window_rect == rect,
            final(self).last_sent_rect == old(self).last_sent_rect,
            final(self).active_window == old(self).active_window,
            final(self).dpi == old(self).dpi,
            final(self).detected_min_w == old(self).detected_min_w,
            final(self).detected_min_h == old(self).detected_min_h,
            final(self).last_modifiers_state == old(self).last_modifiers_state,
            final(self).is_resizing_in_progress == old(self).is_resizing_in_progress,
            final(self).running == old(self).running,
            final(self).pressed_keys@ == old(self).pressed_keys@,
    {
        self.window_rect = rect;
    }

    /// Decides this frame's step: resizing while a resize modifier is held,
    /// gliding otherwise. Leaving resize mode with a resize still pending
    /// first commits it to the window.
    pub fn frame_step(&self, resizing_requested: bool) -> (step: FrameStep)
        ensures
            step == if resizing_requested {
                FrameStep::Resize
            } else {
                FrameStep::Move { commit_pending_resize: self.is_resizing_in_progress }
            },
    {
        if resizing_requested {
            FrameStep::Resize
        } else {
            FrameStep::Move { commit_pending_resize: self.is_resizing_in_progress }
        }
    }

    /// After a resize step: a resize in progress is committed to the window
    /// once the resize motion has stopped.
    pub fn resize_settled(&self, resize_motion_stopped: bool) -> (commit: bool)
        ensures
            commit == (self.is_resizing_in_progress && resize_motion_stopped),
    {
        self.is_resizing_in_progress && resize_motion_stopped
    }

    /// Whether a resize step to `rect` changes the integer size of the
    /// tracked window, so that the overlay tint has to be re-rendered
    /// (otherwise moving the overlay is enough).
    pub fn resize_needs_redraw(&self, rect: Rect) -> (b: bool)
        requires
            self.window_rect.has_i32_extent(),
            rect.has_i32_extent(),
        ensures
            b == (rect.width() != self.window_rect.width() || rect.height()
                != self.window_rect.height()),
    {
        rect.right - rect.left != self.window_rect.right - self.window_rect.left || rect.bottom
            - rect.top != self.window_rect.bottom - self.window_rect.top
    }
}

} // verus!
