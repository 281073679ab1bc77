//! The platform layer of OpenHarmony: a controlling client that is never root,
//! never installed as a service and has no desktop session of its own.

use vstd::prelude::*;
use crate::error::OhosError;

verus! {

/// The sample rate audio is captured at, in Hz.
pub const PA_SAMPLE_RATE: u32 = 48000;

/// Whether the process runs as root: never.
pub fn is_root() -> (b: bool)
    ensures
        !b,
{
    false
}

/// Whether the client is installed as a service: never.
pub fn is_installed() -> (b: bool)
    ensures
        !b,
{
    false
}

/// Whether the machine sits at the login screen: never.
pub fn is_prelogin() -> (b: bool)
    ensures
        !b,
{
    false
}

/// Whether the session runs under X11: never.
pub fn is_x11() -> (b: bool)
    ensures
        !b,
{
    false
}

/// The name of the active user.
pub fn get_active_username() -> (s: String)
    ensures
        s@ == "ohos"@,
{
    "ohos".to_owned()
}

/// Locks the screen; there is no local screen to lock.
pub fn lock_screen() {
}

/// Sends the secure attention sequence; there is none.
pub fn send_sas() {
}

/// Stops the privileged broker process; there is none.
pub fn try_kill_broker() {
}

/// Stops the main window process; there is none, which counts as success.
pub fn try_kill_rustdesk_main_window_process() -> (r: Result<(), OhosError>)
    ensures
        r == Ok::<(), OhosError>(()),
{
    Ok(())
}

/// Whether the user holds super-user permission: the check succeeds and says no.
pub fn check_super_user_permission() -> (r: Result<bool, OhosError>)
    ensures
        r == Ok::<bool, OhosError>(false),
{
    Ok(false)
}

/// Keeps the device awake while it is held; holding it does nothing here.
#[derive(Default)]
pub struct WakeLock;

impl WakeLock {
    /// A wake lock with the given tag.
    pub fn new(tag: &str) -> (w: WakeLock) {
        WakeLock
    }
}

} // verus!
