//! The connection manager of a controlled machine. This client is never controlled,
//! so there are no incoming connections to manage.

use vstd::prelude::*;

verus! {

/// Whether any incoming client is connected: never.
pub fn has_active_clients() -> (b: bool)
    ensures
        !b,
{
    false
}

/// The state of the incoming clients: empty.
pub fn get_clients_state() -> (s: String)
    ensures
        s@ == Seq::<char>::empty(),
{
    String::new()
}

/// The number of incoming clients: none.
pub fn get_clients_length() -> (n: usize)
    ensures
        n == 0,
{
    0
}

/// When the manager window was last clicked: never.
pub fn get_click_time() -> (t: i64)
    ensures
        t == 0,
{
    0
}

/// Records a click on a connection; there is none.
pub fn check_click_time(conn_id: i32) {
}

/// Authorizes a connection; there is none.
pub fn authorize(conn_id: i32) {
}

/// Closes a connection; there is none.
pub fn close(conn_id: i32) {
}

/// Ends a voice call; there is none.
pub fn close_voice_call(id: i32) {
}

/// Elevates a portable session; there is none.
pub fn elevate_portable(conn_id: i32) {
}

/// Answers an incoming voice call; there is none.
pub fn handle_incoming_voice_call(id: i32, accept: bool) {
}

/// Removes a connection; there is none.
pub fn remove(conn_id: i32) {
}

/// Sends a chat message to a connection; there is none.
pub fn send_chat(conn_id: i32, msg: String) {
}

/// Switches back to a connection; there is none.
pub fn switch_back(conn_id: i32) {
}

/// Changes a permission of a connection; there is none.
pub fn switch_permission(conn_id: i32, name: String, enabled: bool) {
}

/// Changes a permission of all connections; there are none.
pub fn switch_permission_all(name: String, enabled: bool, conn_type: Option<i32>) {
}

/// Whether the session can be elevated: never.
pub fn can_elevate() -> (b: bool)
    ensures
        !b,
{
    false
}

} // verus!
