//! The key events sent to a remote machine, as plain values.

use vstd::prelude::*;

verus! {

/// Keys that are not characters.
#[derive(Clone, Copy, PartialEq, Eq, Structural, Debug)]
pub enum ControlKey {
    Unknown,
    Alt,
    Control,
    Shift,
    Meta,
    CtrlAltDel,
    LockScreen,
}

/// How the remote side interprets key events.
#[derive(Clone, Copy, PartialEq, Eq, Structural, Debug)]
pub enum KeyboardMode {
    Legacy,
    MapMode,
    Translate,
    Auto,
}

/// What key an event is about.
#[derive(Clone, Copy, PartialEq, Eq, Structural, Debug)]
pub enum KeyUnion {
    ControlKey(ControlKey),
    Chr(u32),
    Unicode(u32),
}

/// A key event.
pub struct KeyEvent {
    pub down: bool,
    pub press: bool,
    pub key: Option<KeyUnion>,
    pub modifiers: Vec<ControlKey>,
    pub mode: KeyboardMode,
}

impl Default for KeyEvent {
    /// An event about no key, not pressed, without modifiers, in legacy mode.
    fn default() -> (e: KeyEvent)
        ensures
            !e.down,
            !e.press,
            e.key is None,
            e.modifiers@ == Seq::<ControlKey>::empty(),
            e.mode == KeyboardMode::Legacy,
    {
        KeyEvent {
            down: false,
            press: false,
            key: None,
            modifiers: Vec::new(),
            mode: KeyboardMode::Legacy,
        }
    }
}

impl KeyEvent {
    /// Makes the event about the control key `key`.
    pub fn set_control_key(&mut self, key: ControlKey)
        ensures
            final(self).key == Some(KeyUnion::ControlKey(key)),
            final(self).down == old(self).down,
            final(self).press == old(self).press,
            final(self).modifiers@ == old(self).modifiers@,
            final(self).mode == old(self).mode,
    {
        self.key = Some(KeyUnion::ControlKey(key));
    }
}

} // verus!
