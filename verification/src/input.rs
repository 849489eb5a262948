//! Input events and the decisions taken by the low-level keyboard and mouse
//! hooks: which events to report to the application and which key presses
//! to keep from the target window.

use vstd::prelude::*;

use crate::config::{HotkeyConfig, MOD_ALT, MOD_CONTROL, MOD_SHIFT, MOD_WIN};

verus! {

/// `WM_KEYDOWN`.
pub const WM_KEYDOWN: u32 = 0x0100;
/// `WM_KEYUP`.
pub const WM_KEYUP: u32 = 0x0101;
/// `WM_SYSKEYDOWN`.
pub const WM_SYSKEYDOWN: u32 = 0x0104;
/// `WM_SYSKEYUP`.
pub const WM_SYSKEYUP: u32 = 0x0105;
/// `WM_HOTKEY`.
pub const WM_HOTKEY: u32 = 0x0312;
/// `WM_LBUTTONDOWN`.
pub const WM_LBUTTONDOWN: u32 = 0x0201;
/// `WM_RBUTTONDOWN`.
pub const WM_RBUTTONDOWN: u32 = 0x0204;
/// `WM_MBUTTONDOWN`.
pub const WM_MBUTTONDOWN: u32 = 0x0207;
/// `WM_XBUTTONDOWN`.
pub const WM_XBUTTONDOWN: u32 = 0x020B;

/// Virtual key code of the Left arrow.
pub const VK_LEFT: u32 = 0x25;
/// Virtual key code of the Up arrow.
pub const VK_UP: u32 = 0x26;
/// Virtual key code of the Right arrow.
pub const VK_RIGHT: u32 = 0x27;
/// Virtual key code of the Down arrow.
pub const VK_DOWN: u32 = 0x28;

/// Hotkey identifier of the glide activation hotkey.
pub const GLIDE_HOTKEY_ID: i32 = 1337;
/// Hotkey identifier of the window-centering hotkey.
pub const CENTER_HOTKEY_ID: i32 = 1338;

/// Events sent from the input thread to the main application loop.
#[derive(Debug, Clone, Copy, PartialEq, Eq, Structural)]
pub enum InputEvent {
    /// A registered global hotkey was pressed (carries its identifier).
    HotkeyTriggered(i32),
    /// A key was pressed.
    KeyDown(u32),
    /// A key was released.
    KeyUp(u32),
    /// A mouse button was clicked.
    MouseButtonDown,
    /// System shutdown or Ctrl+C signal.
    Shutdown,
}

/// Shift, Ctrl, Alt (generic and left/right) and the two Windows keys.
pub open spec fn is_modifier_key(vk: u32) -> bool {
    (0x10 <= vk <= 0x12) || (0x5B <= vk <= 0x5C) || (0xA0 <= vk <= 0xA5)
}

/// The four arrow keys.
pub open spec fn is_arrow_key(vk: u32) -> bool {
    VK_LEFT <= vk <= VK_DOWN
}

/// Returns true if the virtual key code is a modifier key (Shift, Ctrl,
/// Alt, Win).
pub fn is_modifier(vk_code: u32) -> (b: bool)
    ensures
        b == is_modifier_key(vk_code),
        b <==> (0x10 <= vk_code <= 0x12 || 0x5B <= vk_code <= 0x5C || 0xA0 <= vk_code <= 0xA5),
{
    (0x10 <= vk_code && vk_code <= 0x12) || (0x5B <= vk_code && vk_code <= 0x5C) || (0xA0
        <= vk_code && vk_code <= 0xA5)
}

/// Returns true if the virtual key code is one of the four arrow keys.
pub fn is_arrow(vk_code: u32) -> (b: bool)
    ensures
        b == is_arrow_key(vk_code),
        b <==> 0x25 <= vk_code <= 0x28,
{
    VK_LEFT <= vk_code && vk_code <= VK_DOWN
}

/// Key-press messages seen by the keyboard hook.
pub open spec fn is_key_down_message(message: u32) -> bool {
    message == WM_KEYDOWN || message == WM_SYSKEYDOWN
}

/// Key-release messages seen by the keyboard hook.
pub open spec fn is_key_up_message(message: u32) -> bool {
    message == WM_KEYUP || message == WM_SYSKEYUP
}

/// What the keyboard hook does with one keyboard message.
#[derive(Debug, Clone, Copy, PartialEq, Eq, Structural)]
pub struct KeyboardHookDecision {
    /// The event to report to the application, if any.
    pub event: Option<InputEvent>,
    /// Whether the message is kept from the rest of the system.
    pub consume: bool,
}

/// The modifier flags that take part in matching a hotkey.
pub const HOTKEY_MODIFIER_MASK: u32 = MOD_ALT | MOD_CONTROL | MOD_SHIFT | MOD_WIN;

/// The `MOD_*` flags of the modifier keys held down (either Windows key
/// counts as Win).
pub open spec fn spec_held_modifiers(win: bool, ctrl: bool, shift: bool, alt: bool) -> u32 {
    ((if win { MOD_WIN as int } else { 0int }) + (if ctrl { MOD_CONTROL as int } else { 0int })
        + (if shift { MOD_SHIFT as int } else { 0int }) + (if alt { MOD_ALT as int } else { 0int }))
        as u32
}

/// Computes the `MOD_*` flags of the modifier keys held down.
pub fn held_modifiers(win: bool, ctrl: bool, shift: bool, alt: bool) -> (m: u32)
    ensures
        m == spec_held_modifiers(win, ctrl, shift, alt),
{
    let mut m: u32 = 0;
    if win {
        m = m + MOD_WIN;
    }
    if ctrl {
        m = m + MOD_CONTROL;
    }
    if shift {
        m = m + MOD_SHIFT;
    }
    if alt {
        m = m + MOD_ALT;
    }
    m
}

/// Pressing `vk` with the modifiers `held` fires hotkey `hotkey`: same key,
/// same Win/Ctrl/Shift/Alt combination (other flags, such as no-repeat, do
/// not take part).
pub open spec fn fires_hotkey(hotkey: HotkeyConfig, vk: u32, held: u32) -> bool {
    hotkey.vk == vk && hotkey.modifiers & HOTKEY_MODIFIER_MASK == held & HOTKEY_MODIFIER_MASK
}

/// Pressing `vk` with `held` fires one of the registered `hotkeys`.
pub open spec fn is_hotkey_press(hotkeys: Seq<HotkeyConfig>, vk: u32, held: u32) -> bool {
    exists|i: int| 0 <= i < hotkeys.len() && #[trigger] fires_hotkey(hotkeys[i], vk, held)
}

/// Decides whether pressing `vk` with modifiers `held` fires one of the
/// registered hotkeys.
pub fn fires_registered_hotkey(hotkeys: &[HotkeyConfig], vk: u32, held: u32) -> (b: bool)
    ensures
        b == is_hotkey_press(hotkeys@, vk, held),
{
    let mut i: usize = 0;
    while i < hotkeys.len()
        invariant
            i <= hotkeys@.len(),
            forall|j: int| 0 <= j < i ==> !#[trigger] fires_hotkey(hotkeys@[j], vk, held),
        decreases hotkeys@.len() - i,
    {
        let hk = hotkeys[i];
        if hk.vk == vk && hk.modifiers & HOTKEY_MODIFIER_MASK == held & HOTKEY_MODIFIER_MASK {
            assert(fires_hotkey(hotkeys@[i as int], vk, held));
            return true;
        }
        i = i + 1;
    }
    false
}

/// The keyboard hook's decision for a message with hook code `code`, given
/// whether the key press fires a registered hotkey.
pub open spec fn keyboard_decision(
    code: i32,
    session_active: bool,
    message: u32,
    vk: u32,
    hotkey_press: bool,
) -> KeyboardHookDecision {
    if code >= 0 && session_active {
        if is_key_down_message(message) {
            if hotkey_press {
                KeyboardHookDecision { event: None, consume: false }
            } else {
                KeyboardHookDecision {
                    event: Some(InputEvent::KeyDown(vk)),
                    consume: !is_modifier_key(vk),
                }
            }
        } else if is_key_up_message(message) {
            KeyboardHookDecision { event: Some(InputEvent::KeyUp(vk)), consume: false }
        } else {
            KeyboardHookDecision { event: None, consume: false }
        }
    } else {
        KeyboardHookDecision { event: None, consume: false }
    }
}

/// Decides what the low-level keyboard hook does with a message, given the
/// modifier flags held (`held`) and the registered global hotkeys.
///
/// While a glide session is active every key press and release is
/// reported; key presses are consumed so they do not reach the target
/// window, except modifier keys and presses that fire a registered hotkey:
/// those pass on to the system (which raises the hotkey) and a hotkey press
/// is not reported, so it does not end the session. Releases are never
/// consumed, so the system never sees a key stuck down.
pub fn keyboard_hook_decision(
    code: i32,
    session_active: bool,
    message: u32,
    vk_code: u32,
    held: u32,
    hotkeys: &[HotkeyConfig],
) -> (d: KeyboardHookDecision)
    ensures
        d == keyboard_decision(
            code,
            session_active,
            message,
            vk_code,
            is_hotkey_press(hotkeys@, vk_code, held),
        ),
        code >= 0 && session_active && (message == 0x0100 || message == 0x0104) && !(0x10
            <= vk_code <= 0x12 || 0x5B <= vk_code <= 0x5C || 0xA0 <= vk_code <= 0xA5)
            && !is_hotkey_press(hotkeys@, vk_code, held) ==> d == (KeyboardHookDecision {
            event: Some(InputEvent::KeyDown(vk_code)),
            consume: true,
        }),
        code >= 0 && session_active && (message == 0x0101 || message == 0x0105) ==> d == (
        KeyboardHookDecision { event: Some(InputEvent::KeyUp(vk_code)), consume: false }),
        code < 0 || !session_active ==> d == (KeyboardHookDecision {
            event: None,
            consume: false,
        }),
{
    if code >= 0 && session_active {
        if message == WM_KEYDOWN || message == WM_SYSKEYDOWN {
            if fires_registered_hotkey(hotkeys, vk_code, held) {
                KeyboardHookDecision { event: None, consume: false }
            } else {
                KeyboardHookDecision {
                    event: Some(InputEvent::KeyDown(vk_code)),
                    consume: !is_modifier(vk_code),
                }
            }
        } else if message == WM_KEYUP || message == WM_SYSKEYUP {
            KeyboardHookDecision { event: Some(InputEvent::KeyUp(vk_code)), consume: false }
        } else {
            KeyboardHookDecision { event: None, consume: false }
        }
    } else {
        KeyboardHookDecision { event: None, consume: false }
    }
}

/// The keyboard hook only ever swallows non-modifier key presses that fire
/// no registered hotkey, during an active session; modifier keys, key
/// releases and hotkey presses always reach the system, and a hotkey press
/// reports nothing to the session.
pub proof fn lemma_hook_never_swallows_releases_modifiers_or_hotkeys(
    code: i32,
    session_active: bool,
    message: u32,
    vk: u32,
    hotkey_press: bool,
)
    ensures
        keyboard_decision(code, session_active, message, vk, hotkey_press).consume ==> {
            &&& session_active
            &&& code >= 0
            &&& is_key_down_message(message)
            &&& !is_modifier_key(vk)
            &&& !hotkey_press
        },
        is_key_up_message(message) ==> !keyboard_decision(
            code,
            session_active,
            message,
            vk,
            hotkey_press,
        ).consume,
        is_modifier_key(vk) ==> !keyboard_decision(
            code,
            session_active,
            message,
            vk,
            hotkey_press,
        ).consume,
        hotkey_press && is_key_down_message(message) ==> keyboard_decision(
            code,
            session_active,
            message,
            vk,
            hotkey_press,
        ) == (KeyboardHookDecision { event: None, consume: false }),
        !session_active ==> keyboard_decision(code, session_active, message, vk, hotkey_press)
            == (KeyboardHookDecision { event: None, consume: false }),
{
}

/// The modifier keys are exactly Shift, Ctrl and Alt (0x10-0x12), the two
/// Windows keys (0x5B-0x5C) and the left/right Shift, Ctrl and Alt keys
/// (0xA0-0xA5); Enter, Escape, letters, digits, function keys and every
/// other key are not.
pub proof fn lemma_modifier_keys_are_shift_ctrl_alt_win(vk: u32)
    ensures
        is_modifier_key(vk) <==> (0x10 <= vk <= 0x12 || 0x5B <= vk <= 0x5C || 0xA0 <= vk
            <= 0xA5),
        !is_modifier_key(0x0D),
        !is_modifier_key(0x1B),
        !is_modifier_key(0x41),
{
}

/// During an active session every key press (`WM_KEYDOWN` 0x100 or
/// `WM_SYSKEYDOWN` 0x104, so Alt combinations too) of a key other than
/// Shift/Ctrl/Alt/Win that fires no registered hotkey is swallowed and
/// reported as that key's press.
pub proof fn lemma_hook_swallows_plain_key_presses(
    code: i32,
    message: u32,
    vk: u32,
    hotkey_press: bool,
)
    requires
        code >= 0,
        message == 0x0100 || message == 0x0104,
        !(0x10 <= vk <= 0x12 || 0x5B <= vk <= 0x5C || 0xA0 <= vk <= 0xA5),
        !hotkey_press,
    ensures
        keyboard_decision(code, true, message, vk, hotkey_press) == (KeyboardHookDecision {
            event: Some(InputEvent::KeyDown(vk)),
            consume: true,
        }),
{
}

/// Mouse-button press messages.
pub open spec fn is_button_down_message(message: u32) -> bool {
    message == WM_LBUTTONDOWN || message == WM_RBUTTONDOWN || message == WM_MBUTTONDOWN
        || message == WM_XBUTTONDOWN
}

/// Decides which event, if any, the low-level mouse hook reports: a button
/// press during an active session. The mouse hook never consumes input.
pub fn mouse_hook_event(code: i32, session_active: bool, message: u32) -> (e: Option<InputEvent>)
    ensures
        e == (if code >= 0 && session_active && is_button_down_message(message) {
            Some(InputEvent::MouseButtonDown)
        } else {
            None
        }),
{
    if code >= 0 && session_active {
        if message == WM_LBUTTONDOWN || message == WM_RBUTTONDOWN || message == WM_MBUTTONDOWN
            || message == WM_XBUTTONDOWN {
            return Some(InputEvent::MouseButtonDown);
        }
    }
    None
}

/// The event the input thread's message loop reports for a thread message:
/// a `WM_HOTKEY` message carries the hotkey identifier in `wparam`.
pub fn hotkey_message_event(message: u32, wparam: usize) -> (e: Option<InputEvent>)
    ensures
        e == (if message == WM_HOTKEY {
            Some(InputEvent::HotkeyTriggered(wparam as i32))
        } else {
            None
        }),
{
    if message == WM_HOTKEY {
        Some(InputEvent::HotkeyTriggered(wparam as i32))
    } else {
        None
    }
}

} // verus!
