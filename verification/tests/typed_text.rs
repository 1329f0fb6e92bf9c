use portal_capture::calls::CallArg;
use portal_capture::dbus_util::Connection2;
use portal_capture::message::{Message, MessageType};
use portal_capture::portal::PortalError;
use portal_capture::typing::{Typing, TypingTurn};

const SECOND: u128 = 1_000_000_000;

fn reply(serial: u32, msg_type: MessageType) -> Message<u32> {
    Message {
        msg_type,
        reply_serial: Some(serial),
        sender: None,
        path: None,
        interface: None,
        member: None,
        path_arg: None,
        response: Err("no results".to_owned()),
        payload: 0,
    }
}

fn check_call(turn: TypingTurn<u32>, code: i32, state: u32) {
    match turn {
        TypingTurn::Call(call) => {
            assert_eq!(call.method, "NotifyKeyboardKeysym");
            assert!(matches!(call.args[2], CallArg::Int(c) if c == code));
            assert!(matches!(call.args[3], CallArg::Uint(s) if s == state));
        }
        other => panic!("no call: {:?}", other),
    }
}

#[test]
fn each_call_waits_for_the_reply_before() {
    let mut conn = Connection2::new();
    let mut typing = Typing::new(&"/s".to_owned(), "ab");
    let expected = [(97, 1), (97, 0), (98, 1), (98, 0)];
    check_call(typing.poll(&mut conn, 0), 97, 1);
    for serial in 1..=4 {
        typing.sent(&mut conn, serial, 0);
        assert!(typing.is_waiting(&conn));
        match typing.poll(&mut conn, 10) {
            TypingTurn::Wait(left) => assert_eq!(left, SECOND - 10),
            other => panic!("no wait: {:?}", other),
        }
        // An error is an answer too.
        let kind = if serial == 2 { MessageType::Error } else { MessageType::MethodReturn };
        conn.block_on_any_io(Some(reply(serial, kind)));
        let turn = typing.poll(&mut conn, 20);
        if serial == 4 {
            assert!(matches!(turn, TypingTurn::Done));
        } else {
            let (code, state) = expected[serial as usize];
            check_call(turn, code, state);
        }
    }
    assert_eq!(conn.unmatched_n(), 0);
}

#[test]
fn typing_stops_where_no_reply_comes() {
    let mut conn: Connection2<u32> = Connection2::new();
    let mut typing = Typing::new(&"/s".to_owned(), "ab");
    check_call(typing.poll(&mut conn, 0), 97, 1);
    typing.sent(&mut conn, 1, 0);
    assert!(matches!(
        typing.poll(&mut conn, SECOND),
        TypingTurn::Failed(PortalError::ReplyTimedOut)
    ));
    assert!(matches!(typing.poll(&mut conn, SECOND), TypingTurn::Done));
    assert!(matches!(typing.poll(&mut conn, 2 * SECOND), TypingTurn::Done));
    assert!(!conn.is_registered(0));
}

#[test]
fn nothing_to_type_is_done_at_once() {
    let mut conn: Connection2<u32> = Connection2::new();
    let mut typing = Typing::new(&"/s".to_owned(), "");
    assert!(matches!(typing.poll(&mut conn, 0), TypingTurn::Done));
}

#[test]
fn typing_misses_a_removed_matcher() {
    let mut conn: Connection2<u32> = Connection2::new();
    let mut typing = Typing::new(&"/s".to_owned(), "a");
    assert!(typing.is_waiting(&conn));
    check_call(typing.poll(&mut conn, 0), 97, 1);
    typing.sent(&mut conn, 1, 0);
    conn.remove_matcher(0);
    assert!(!typing.is_waiting(&conn));
}
