use portal_capture::dbus_util::{Blocked, Connection2, Matcher};
use portal_capture::message::{Message, MessageType};

fn message(payload: u32) -> Message<u32> {
    Message {
        msg_type: MessageType::Signal,
        reply_serial: Some(3),
        sender: Some(":1.9".to_owned()),
        path: Some("/a/b".to_owned()),
        interface: Some("x.Y".to_owned()),
        member: Some("Z".to_owned()),
        path_arg: None,
        response: Err("no arguments".to_owned()),
        payload,
    }
}

fn bare_message(payload: u32) -> Message<u32> {
    Message {
        msg_type: MessageType::MethodReturn,
        reply_serial: None,
        sender: None,
        path: None,
        interface: None,
        member: None,
        path_arg: None,
        response: Err("no arguments".to_owned()),
        payload,
    }
}

fn serial_matcher(serial: u32) -> Matcher {
    Matcher::new().with_reply_serial(serial)
}

#[test]
fn new_matcher_asks_for_nothing() {
    let matcher = Matcher::new();
    assert!(matcher.message_type.is_none());
    assert!(matcher.reply_serial.is_none());
    assert!(matcher.sender.is_none());
    assert!(matcher.path.is_none());
    assert!(matcher.interface.is_none());
    assert!(matcher.member.is_none());
    assert!(matcher.matches(&message(0)));
    assert!(matcher.matches(&bare_message(0)));
}

#[test]
fn builders_set_one_field_each() {
    let matcher = Matcher::new()
        .with_message_type(MessageType::Error)
        .with_reply_serial(8)
        .with_sender("s".to_owned())
        .with_path("p".to_owned())
        .with_interface("i".to_owned())
        .with_member("m".to_owned());
    assert_eq!(matcher.message_type, Some(MessageType::Error));
    assert_eq!(matcher.reply_serial, Some(8));
    assert_eq!(matcher.sender, Some("s".to_owned()));
    assert_eq!(matcher.path, Some("p".to_owned()));
    assert_eq!(matcher.interface, Some("i".to_owned()));
    assert_eq!(matcher.member, Some("m".to_owned()));
    let copy = matcher.clone();
    assert_eq!(copy.path, matcher.path);
    assert_eq!(copy.message_type, matcher.message_type);
}

#[test]
fn each_field_narrows() {
    let m = message(0);
    let bare = bare_message(0);
    assert!(Matcher::new().with_message_type(MessageType::Signal).matches(&m));
    assert!(!Matcher::new().with_message_type(MessageType::Error).matches(&m));
    assert!(serial_matcher(3).matches(&m));
    assert!(!serial_matcher(4).matches(&m));
    assert!(!serial_matcher(3).matches(&bare));
    assert!(Matcher::new().with_sender(":1.9".to_owned()).matches(&m));
    assert!(!Matcher::new().with_sender(":1.8".to_owned()).matches(&m));
    assert!(!Matcher::new().with_sender(":1.9".to_owned()).matches(&bare));
    assert!(Matcher::new().with_path("/a/b".to_owned()).matches(&m));
    assert!(!Matcher::new().with_path("/a".to_owned()).matches(&m));
    assert!(!Matcher::new().with_path("/a/b".to_owned()).matches(&bare));
    assert!(Matcher::new().with_interface("x.Y".to_owned()).matches(&m));
    assert!(!Matcher::new().with_interface("x.y".to_owned()).matches(&m));
    assert!(!Matcher::new().with_interface("x.Y".to_owned()).matches(&bare));
    assert!(Matcher::new().with_member("Z".to_owned()).matches(&m));
    assert!(!Matcher::new().with_member("".to_owned()).matches(&m));
    assert!(!Matcher::new().with_member("Z".to_owned()).matches(&bare));
}

#[test]
fn ids_count_up_and_are_not_reused() {
    let mut conn: Connection2<u32> = Connection2::new();
    assert_eq!(conn.register_matcher(1, Matcher::new()), 0);
    assert_eq!(conn.register_matcher(2, Matcher::new()), 1);
    assert!(conn.remove_matcher(1).is_some());
    assert_eq!(conn.register_matcher(1, Matcher::new()), 2);
    assert!(conn.is_registered(0));
    assert!(!conn.is_registered(1));
    assert!(conn.is_registered(2));
}

#[test]
fn awaited_messages_are_counted() {
    let mut conn: Connection2<u32> = Connection2::new();
    assert_eq!(conn.unmatched_n(), 0);
    let id = conn.register_matcher(3, serial_matcher(3));
    conn.register_matcher(2, serial_matcher(4));
    assert_eq!(conn.unmatched_n(), 5);
    assert_eq!(conn.match_message(message(1)), Some(id));
    assert_eq!(conn.unmatched_n(), 4);
    assert!(conn.remove_matcher(id).is_some());
    assert_eq!(conn.unmatched_n(), 2);
    assert!(conn.remove_matcher(id).is_none());
    assert_eq!(conn.unmatched_n(), 2);
}

#[test]
fn removing_gives_back_matcher_and_messages() {
    let mut conn: Connection2<u32> = Connection2::new();
    let id = conn.register_matcher(2, serial_matcher(3));
    conn.block_on_any_io(Some(message(11)));
    conn.block_on_any_io(None);
    conn.block_on_any_io(Some(message(12)));
    let (matcher, messages) = conn.remove_matcher(id).unwrap();
    assert_eq!(matcher.reply_serial, Some(3));
    assert_eq!(messages.len(), 2);
    assert_eq!(messages[0].payload, 11);
    assert_eq!(messages[1].payload, 12);
}

#[test]
fn full_matcher_gets_no_more() {
    let mut conn: Connection2<u32> = Connection2::new();
    let id = conn.register_matcher(1, serial_matcher(3));
    assert_eq!(conn.match_message(message(1)), Some(id));
    assert_eq!(conn.match_message(message(2)), None);
    let (_, messages) = conn.remove_matcher(id).unwrap();
    assert_eq!(messages.len(), 1);
    assert_eq!(messages[0].payload, 1);
}

#[test]
fn message_goes_to_exactly_one_of_several() {
    let mut conn: Connection2<u32> = Connection2::new();
    let a = conn.register_matcher(1, Matcher::new());
    let b = conn.register_matcher(1, Matcher::new());
    let first = conn.match_message(message(1)).unwrap();
    let second = conn.match_message(message(2)).unwrap();
    assert!(first == a || first == b);
    assert!(second == a || second == b);
    assert_ne!(first, second);
    assert_eq!(conn.match_message(message(3)), None);
}

#[test]
fn unwanted_message_is_dropped() {
    let mut conn: Connection2<u32> = Connection2::new();
    let id = conn.register_matcher(1, serial_matcher(3));
    assert_eq!(conn.match_message(bare_message(1)), None);
    assert_eq!(conn.unmatched_n(), 1);
    let (_, messages) = conn.remove_matcher(id).unwrap();
    assert!(messages.is_empty());
}

#[test]
fn matcher_for_no_message_is_ready_at_once() {
    let mut conn: Connection2<u32> = Connection2::new();
    let id = conn.register_matcher(0, Matcher::new());
    assert_eq!(conn.match_message(message(1)), None);
    match conn.block_on_matcher_remove(id, 100, 0) {
        Blocked::Ready((_, messages)) => assert!(messages.is_empty()),
        Blocked::Wait(_) => panic!("nothing to wait for"),
    }
}

#[test]
fn wait_goes_on_for_what_is_left() {
    let mut conn: Connection2<u32> = Connection2::new();
    let id = conn.register_matcher(2, serial_matcher(3));
    conn.block_on_any_io(Some(message(1)));
    match conn.block_on_matcher_remove(id, 100, 30) {
        Blocked::Wait(left) => assert_eq!(left, 70),
        Blocked::Ready(_) => panic!("one message is missing"),
    }
    assert!(conn.is_registered(id));
    match conn.block_on_matcher_remove(id, 100, 100) {
        Blocked::Ready((_, messages)) => assert_eq!(messages.len(), 1),
        Blocked::Wait(_) => panic!("the time is over"),
    }
    assert!(!conn.is_registered(id));
}

#[test]
fn full_matcher_is_ready_even_when_late() {
    let mut conn: Connection2<u32> = Connection2::new();
    let id = conn.register_matcher(1, serial_matcher(3));
    conn.block_on_any_io(Some(message(5)));
    match conn.block_on_once_matcher_remove(id, 100, 1000) {
        Blocked::Ready((matcher, first)) => {
            assert_eq!(matcher.reply_serial, Some(3));
            assert_eq!(first.unwrap().payload, 5);
        }
        Blocked::Wait(_) => panic!("the message is there"),
    }
}

#[test]
fn once_gives_the_first_message_or_none() {
    let mut conn: Connection2<u32> = Connection2::new();
    let id = conn.register_matcher(2, serial_matcher(3));
    conn.block_on_any_io(Some(message(5)));
    conn.block_on_any_io(Some(message(6)));
    match conn.block_on_once_matcher_remove(id, 100, 0) {
        Blocked::Ready((_, first)) => assert_eq!(first.unwrap().payload, 5),
        Blocked::Wait(_) => panic!("both messages are there"),
    }
    let id = conn.register_matcher(1, serial_matcher(3));
    match conn.block_on_once_matcher_remove(id, 0, 0) {
        Blocked::Ready((_, first)) => assert!(first.is_none()),
        Blocked::Wait(_) => panic!("there is no time to wait"),
    }
}

#[test]
fn redirected_matcher_asks_for_the_new_path() {
    let mut conn: Connection2<u32> = Connection2::new();
    let id = conn.register_matcher(1, Matcher::new().with_path("/old".to_owned()));
    assert_eq!(conn.match_message(message(1)), None);
    conn.redirect_matcher(id, "/a/b".to_owned());
    assert_eq!(conn.match_message(message(2)), Some(id));
}

#[test]
fn tokens_count_up() {
    let mut conn: Connection2<u32> = Connection2::new();
    assert!(conn.has_room());
    assert_eq!(conn.get_token(), 0);
    assert_eq!(conn.get_token(), 1);
    conn.register_matcher(1, Matcher::new());
    assert_eq!(conn.get_token(), 2);
}

#[test]
fn room_runs_out() {
    let mut conn: Connection2<u32> = Connection2::new();
    conn.register_matcher(usize::MAX - 2, Matcher::new());
    assert!(conn.has_room());
    conn.register_matcher(1, Matcher::new());
    assert!(!conn.has_room());
}
