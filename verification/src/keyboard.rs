//! Keyboard handling of the controlling side. Local key grabbing is not
//! available here, so most operations have nothing to do.

use vstd::prelude::*;

pub mod client;
pub mod input_source;

verus! {

/// Releases keys still held down on the remote side; none are tracked here.
pub fn release_remote_keys(keyboard_mode: &str) {
}

/// Turns relative mouse mode on or off; it is not available here.
pub fn set_relative_mouse_mode_state(state: bool) {
}

/// Updates the key names used while grabbing; there is no grabbing here.
pub fn update_grab_get_key_name(keyboard_mode: &str) {
}

} // verus!
