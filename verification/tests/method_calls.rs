use portal_capture::calls::{
    new_create_session_call, new_remote_desktop_call, new_screen_cast_call, new_start_call,
    remote_desktop_select_devices, remote_desktop_type, screen_cast_open_pipe_wire_remote,
    screen_cast_select_sources, CallArg, MethodCall, OptionValue, Portal,
};
use portal_capture::dyn_map::DynMap;
use portal_capture::text::{replace_after_first, to_decimal};
use portal_capture::{device_types, source_types};

fn check_target(call: &MethodCall, interface: &str, method: &str, n_args: usize) {
    assert_eq!(call.destination, "org.freedesktop.portal.Desktop");
    assert_eq!(call.path, "/org/freedesktop/portal/desktop");
    assert_eq!(call.interface, interface);
    assert_eq!(call.method, method);
    assert_eq!(call.args.len(), n_args);
}

fn check_path(arg: &CallArg, path: &str) {
    match arg {
        CallArg::Path(p) => assert_eq!(p, path),
        _ => panic!("not a path"),
    }
}

fn options(arg: &CallArg) -> &DynMap<OptionValue> {
    match arg {
        CallArg::Options(options) => options,
        _ => panic!("not options"),
    }
}

fn check_text(options: &DynMap<OptionValue>, key: &str, text: &str) {
    match options.get(key) {
        Some(OptionValue::Text(t)) => assert_eq!(t, text),
        _ => panic!("no such text"),
    }
}

fn check_number(options: &DynMap<OptionValue>, key: &str, number: u32) {
    match options.get(key) {
        Some(OptionValue::Number(n)) => assert_eq!(*n, number),
        _ => panic!("no such number"),
    }
}

#[test]
fn calls_name_their_target() {
    check_target(
        &new_screen_cast_call("Foo"),
        "org.freedesktop.portal.ScreenCast",
        "Foo",
        0,
    );
    check_target(
        &new_remote_desktop_call("Bar"),
        "org.freedesktop.portal.RemoteDesktop",
        "Bar",
        0,
    );
}

#[test]
fn create_session_has_two_tokens() {
    let call = new_create_session_call(Portal::ScreenCast, 10, 11);
    check_target(&call, "org.freedesktop.portal.ScreenCast", "CreateSession", 1);
    check_text(options(&call.args[0]), "handle_token", "10");
    check_text(options(&call.args[0]), "session_handle_token", "11");
    let call = new_create_session_call(Portal::RemoteDesktop, 0, 1);
    check_target(&call, "org.freedesktop.portal.RemoteDesktop", "CreateSession", 1);
}

#[test]
fn start_names_no_parent_window() {
    let call = new_start_call(Portal::RemoteDesktop, "/s".to_owned(), 7);
    check_target(&call, "org.freedesktop.portal.RemoteDesktop", "Start", 3);
    check_path(&call.args[0], "/s");
    match &call.args[1] {
        CallArg::Text(text) => assert_eq!(text, ""),
        _ => panic!("not text"),
    }
    check_text(options(&call.args[2]), "handle_token", "7");
    assert!(options(&call.args[2]).get("types").is_none());
}

#[test]
fn selecting_sends_the_types() {
    let call = screen_cast_select_sources("/s".to_owned(), 8, source_types::ALL);
    check_target(&call, "org.freedesktop.portal.ScreenCast", "SelectSources", 2);
    check_path(&call.args[0], "/s");
    check_text(options(&call.args[1]), "handle_token", "8");
    check_number(options(&call.args[1]), "types", 7);
    let call = remote_desktop_select_devices("/s".to_owned(), 9, device_types::POINTER);
    check_target(&call, "org.freedesktop.portal.RemoteDesktop", "SelectDevices", 2);
    check_path(&call.args[0], "/s");
    check_text(options(&call.args[1]), "handle_token", "9");
    check_number(options(&call.args[1]), "types", 2);
}

#[test]
fn opening_the_remote_has_no_options() {
    let call = screen_cast_open_pipe_wire_remote("/s".to_owned());
    check_target(&call, "org.freedesktop.portal.ScreenCast", "OpenPipeWireRemote", 2);
    check_path(&call.args[0], "/s");
    assert!(options(&call.args[1]).get("handle_token").is_none());
}

#[test]
fn typing_presses_and_releases_each_key() {
    let calls = remote_desktop_type(&"/s".to_owned(), "a\u{1f600}");
    assert_eq!(calls.len(), 4);
    let expected = [(97, 1), (97, 0), (0x1f600, 1), (0x1f600, 0)];
    for (call, (code, state)) in calls.iter().zip(expected) {
        check_target(
            call,
            "org.freedesktop.portal.RemoteDesktop",
            "NotifyKeyboardKeysym",
            4,
        );
        check_path(&call.args[0], "/s");
        assert!(matches!(call.args[2], CallArg::Int(c) if c == code));
        assert!(matches!(call.args[3], CallArg::Uint(s) if s == state));
    }
    assert!(remote_desktop_type(&"/s".to_owned(), "").is_empty());
}

#[test]
fn types_are_bits() {
    assert_eq!(source_types::MONITOR, 1);
    assert_eq!(source_types::WINDOW, 2);
    assert_eq!(source_types::VIRTUAL, 4);
    assert_eq!(source_types::ALL, 7);
    assert_eq!(device_types::KEYBOARD, 1);
    assert_eq!(device_types::POINTER, 2);
    assert_eq!(device_types::TOUCHSCREEN, 4);
    assert_eq!(device_types::ALL, 7);
}

#[test]
fn numbers_are_written_in_decimal() {
    assert_eq!(to_decimal(0), "0");
    assert_eq!(to_decimal(9), "9");
    assert_eq!(to_decimal(10), "10");
    assert_eq!(to_decimal(1203), "1203");
    assert_eq!(to_decimal(usize::MAX), usize::MAX.to_string());
}

#[test]
fn first_character_is_left_off() {
    assert_eq!(replace_after_first(":1.42", '.', '_'), "1_42");
    assert_eq!(replace_after_first(".", '.', '_'), "");
    assert_eq!(replace_after_first(":a.\u{e9}..", '.', '_'), "a_\u{e9}__");
}
