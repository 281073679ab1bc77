//! Key events of a controlling session.

use vstd::prelude::*;
use crate::message::{ControlKey, KeyEvent, KeyUnion, KeyboardMode};

verus! {

/// `uuid::Uuid`, the identity of a session.
#[verifier::external_type_specification]
#[verifier::external_body]
pub struct ExUuid(uuid::Uuid);

/// An event that presses the control key `key` alone, in legacy mode.
pub open spec fn control_key_event(e: KeyEvent, key: ControlKey) -> bool {
    &&& !e.down
    &&& !e.press
    &&& e.key == Some(KeyUnion::ControlKey(key))
    &&& e.modifiers@ == Seq::<ControlKey>::empty()
    &&& e.mode == KeyboardMode::Legacy
}

/// Changes whether keys are grabbed for the session `T`; there is no grabbing here.
pub fn change_grab_status<T>(state: u32, keyboard_mode: &str, session_id: uuid::Uuid) {
}

/// The event that locks the remote screen.
pub fn event_lock_screen() -> (e: KeyEvent)
    ensures
        control_key_event(e, ControlKey::LockScreen),
{
    let mut e = KeyEvent::default();
    e.set_control_key(ControlKey::LockScreen);
    e.mode = KeyboardMode::Legacy;
    e
}

/// The event that sends Ctrl+Alt+Del to the remote machine.
pub fn event_ctrl_alt_del() -> (e: KeyEvent)
    ensures
        control_key_event(e, ControlKey::CtrlAltDel),
{
    let mut e = KeyEvent::default();
    e.set_control_key(ControlKey::CtrlAltDel);
    e.mode = KeyboardMode::Legacy;
    e
}

/// Adds the held modifiers to an event in legacy mode; the event is left as it is.
pub fn legacy_modifiers(msg: &mut KeyEvent, alt: bool, ctrl: bool, shift: bool, command: bool)
    ensures
        *final(msg) == *old(msg),
{
}

/// The state of the modifier keys: as reported.
pub fn get_modifiers_state(alt: bool, ctrl: bool, shift: bool, command: bool) -> (r: (
    bool,
    bool,
    bool,
    bool,
))
    ensures
        r == (alt, ctrl, shift, command),
{
    (alt, ctrl, shift, command)
}

/// Handles a local key event for `session`; local events are not captured here.
pub fn process_event_with_session<S>(
    keyboard_mode: &str,
    event: &(),
    lock_modes: Option<i32>,
    session: &S,
) {
}

} // verus!
