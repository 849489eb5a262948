//! The flag that tells the input hooks whether a glide session is active.

use std::sync::atomic::{AtomicBool, Ordering};
use vstd::prelude::*;

verus! {

/// Stores whether a glide session is active into the flag the input hooks
/// read (a relaxed store: the hooks only need to see the value eventually).
///
/// The flag is an atomic shared with the hook callbacks; what it holds is
/// not part of any contract here.
pub fn set_session_active(flag: &AtomicBool, active: bool) {
    flag.store(active, Ordering::Relaxed);
}

} // verus!
