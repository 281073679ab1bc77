use rustdesk_ohos::kcp_stream::KcpStream;
use rustdesk_ohos::error::OhosError;
use rustdesk_ohos::keyboard::client::{
    change_grab_status, event_ctrl_alt_del, event_lock_screen, get_modifiers_state,
    legacy_modifiers, process_event_with_session,
};
use rustdesk_ohos::keyboard::input_source::{get_supported_input_source, init_input_source};
use rustdesk_ohos::keyboard::{release_remote_keys, set_relative_mouse_mode_state, update_grab_get_key_name};
use rustdesk_ohos::message::{ControlKey, KeyEvent, KeyUnion, KeyboardMode};
use rustdesk_ohos::ui_cm_interface::{
    authorize, can_elevate, check_click_time, close, close_voice_call, elevate_portable,
    get_click_time, get_clients_length, get_clients_state, handle_incoming_voice_call,
    has_active_clients, remove, send_chat, switch_back, switch_permission, switch_permission_all,
};

#[test]
fn kcp_accept_is_not_implemented() {
    match KcpStream::accept(()) {
        Err(e) => {
            assert_eq!(e, OhosError::KcpAcceptNotImplemented);
            assert_eq!(e.message(), "OHOS v0.1: KcpStream::accept not implemented");
        }
        Ok(_) => panic!("accept succeeded"),
    }
}

#[test]
fn kcp_connect_message() {
    assert_eq!(
        OhosError::KcpConnectNotImplemented.message(),
        "OHOS v0.1: KcpStream::connect not implemented"
    );
}

#[test]
fn lock_screen_event() {
    let e = event_lock_screen();
    assert!(matches!(e.key, Some(KeyUnion::ControlKey(ControlKey::LockScreen))));
    assert_eq!(e.mode, KeyboardMode::Legacy);
    assert!(!e.down && !e.press && e.modifiers.is_empty());
}

#[test]
fn ctrl_alt_del_event() {
    let e = event_ctrl_alt_del();
    assert!(matches!(e.key, Some(KeyUnion::ControlKey(ControlKey::CtrlAltDel))));
    assert_eq!(e.mode, KeyboardMode::Legacy);
}

#[test]
fn legacy_modifiers_leave_the_event() {
    let mut e = KeyEvent::default();
    e.key = Some(KeyUnion::Chr(65));
    e.down = true;
    legacy_modifiers(&mut e, true, true, false, false);
    assert!(matches!(e.key, Some(KeyUnion::Chr(65))));
    assert!(e.down);
    assert!(e.modifiers.is_empty());
}

#[test]
fn set_control_key_keeps_other_fields() {
    let mut e = KeyEvent::default();
    e.press = true;
    e.modifiers.push(ControlKey::Shift);
    e.set_control_key(ControlKey::Alt);
    assert!(matches!(e.key, Some(KeyUnion::ControlKey(ControlKey::Alt))));
    assert!(e.press);
    assert_eq!(e.modifiers, vec![ControlKey::Shift]);
}

#[test]
fn modifiers_state_is_passed_through() {
    assert_eq!(get_modifiers_state(true, false, true, false), (true, false, true, false));
    assert_eq!(get_modifiers_state(false, true, false, true), (false, true, false, true));
}

#[test]
fn keyboard_actions_do_nothing() {
    release_remote_keys("legacy");
    set_relative_mouse_mode_state(true);
    update_grab_get_key_name("map");
    init_input_source();
    assert!(get_supported_input_source().is_empty());
    change_grab_status::<()>(1, "legacy", uuid::Uuid::nil());
    process_event_with_session("legacy", &(), Some(2), &0u8);
}

#[test]
fn connection_manager_is_empty() {
    assert!(!has_active_clients());
    assert_eq!(get_clients_state(), "");
    assert_eq!(get_clients_length(), 0);
    assert_eq!(get_click_time(), 0);
    assert!(!can_elevate());
    check_click_time(1);
    authorize(1);
    close(1);
    close_voice_call(1);
    elevate_portable(1);
    handle_incoming_voice_call(1, true);
    remove(1);
    send_chat(1, "hi".to_string());
    switch_back(1);
    switch_permission(1, "keyboard".to_string(), true);
    switch_permission_all("clipboard".to_string(), false, Some(0));
}
