//! Verified core of win-glide: the decisions and geometry behind
//! keyboard-driven window gliding, resizing and centering.
//!
//! The Win32 plumbing, the floating-point physics and the overlay renderer
//! live in the application crate; this library holds the integer geometry,
//! the session state machine, the input-hook decisions, the hotkey naming
//! and the system-UI exclusion rules.

pub mod geometry;
pub mod window;
pub mod hook_flag;
pub mod input;
pub mod session;
pub mod config;
pub mod overlay;
pub mod resize;
