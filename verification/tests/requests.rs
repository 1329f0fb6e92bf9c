use portal_capture::dbus_util::{Blocked, Connection2};
use portal_capture::dyn_map::DynMap;
use portal_capture::message::{Arg, Message, MessageType};
use portal_capture::portal::{predicted_request_path, DbusReply, PortalError, PortalRequest, Stage};

const PREDICTED: &str = "/org/freedesktop/portal/desktop/request/1_42/t";

fn reply(serial: u32, path: Option<&str>) -> Message<u32> {
    Message {
        msg_type: MessageType::MethodReturn,
        reply_serial: Some(serial),
        sender: Some(":1.1".to_owned()),
        path: None,
        interface: None,
        member: None,
        path_arg: path.map(|p| p.to_owned()),
        response: Err("no results".to_owned()),
        payload: 1,
    }
}

fn error_reply(serial: u32) -> Message<u32> {
    let mut message = reply(serial, Some(PREDICTED));
    message.msg_type = MessageType::Error;
    message.payload = 77;
    message
}

fn response(path: &str, code: u32) -> Message<u32> {
    Message {
        msg_type: MessageType::Signal,
        reply_serial: None,
        sender: Some(":1.1".to_owned()),
        path: Some(path.to_owned()),
        interface: Some("org.freedesktop.portal.Request".to_owned()),
        member: Some("Response".to_owned()),
        path_arg: None,
        response: Ok((
            code,
            DynMap::new().with_owned(
                "k".to_owned(),
                Arg { text: Some("v".to_owned()), number: None, items: None },
            ),
        )),
        payload: 2,
    }
}

fn begin(conn: &mut Connection2<u32>) -> PortalRequest {
    PortalRequest::new(conn, ":1.42", 5, "t", 100, 1000)
}

fn check_results(turn: Blocked<Result<DynMap<Arg>, PortalError<u32>>>) {
    match turn {
        Blocked::Ready(Ok(results)) => {
            assert_eq!(results.get("k").unwrap().text, Some("v".to_owned()));
        }
        other => panic!("no results: {:?}", other),
    }
}

fn check_wait(turn: Blocked<Result<DynMap<Arg>, PortalError<u32>>>, left: u128) {
    match turn {
        Blocked::Wait(l) => assert_eq!(l, left),
        other => panic!("no wait: {:?}", other),
    }
}

#[test]
fn path_is_made_of_name_and_token() {
    assert_eq!(predicted_request_path(":1.42", "t"), PREDICTED);
    assert_eq!(
        predicted_request_path(":1.2.3", "10"),
        "/org/freedesktop/portal/desktop/request/1_2_3/10"
    );
    assert_ne!(predicted_request_path(":1.2", "1"), predicted_request_path(":1.2", "2"));
}

#[test]
fn request_registers_two_matchers() {
    let mut conn = Connection2::new();
    let request = begin(&mut conn);
    assert_eq!(request.response_id, 0);
    assert_eq!(
        request.stage,
        Stage::Reply(DbusReply { id: 1, begin: 1000, timeout: 100 })
    );
    assert!(request.is_waiting(&conn));
    assert_eq!(conn.unmatched_n(), 2);
    let (matcher, _) = conn.remove_matcher(0).unwrap();
    assert_eq!(matcher.message_type, Some(MessageType::Signal));
    assert_eq!(matcher.reply_serial, None);
    assert_eq!(matcher.sender, None);
    assert_eq!(matcher.path, Some(PREDICTED.to_owned()));
    assert_eq!(matcher.interface, Some("org.freedesktop.portal.Request".to_owned()));
    assert_eq!(matcher.member, Some("Response".to_owned()));
    let (matcher, _) = conn.remove_matcher(1).unwrap();
    assert_eq!(matcher.message_type, None);
    assert_eq!(matcher.reply_serial, Some(5));
    assert_eq!(matcher.path, None);
    assert!(!request.is_waiting(&conn));
}

#[test]
fn response_after_reply() {
    let mut conn = Connection2::new();
    let mut request = begin(&mut conn);
    check_wait(request.get_portal_response(&mut conn, 1010), 90);
    conn.block_on_any_io(Some(reply(5, Some("/other"))));
    check_wait(request.get_portal_response(&mut conn, 1030), 70);
    assert_eq!(request.stage, Stage::Response { begin: 1030, timeout: 70 });
    // From now on, the path that the reply named counts.
    conn.block_on_any_io(Some(response(PREDICTED, 0)));
    check_wait(request.get_portal_response(&mut conn, 1040), 60);
    conn.block_on_any_io(Some(response("/other", 0)));
    check_results(request.get_portal_response(&mut conn, 1050));
    assert_eq!(conn.unmatched_n(), 0);
    assert!(!conn.is_registered(0));
    assert!(!conn.is_registered(1));
}

#[test]
fn response_before_reply_is_kept() {
    let mut conn = Connection2::new();
    let mut request = begin(&mut conn);
    conn.block_on_any_io(Some(response(PREDICTED, 0)));
    check_wait(request.get_portal_response(&mut conn, 1010), 90);
    conn.block_on_any_io(Some(reply(5, Some("/other"))));
    // Both have come, so the time does not matter any more.
    check_results(request.get_portal_response(&mut conn, 5000));
    assert!(!conn.is_registered(0));
    assert!(!conn.is_registered(1));
}

#[test]
fn response_on_an_unexpected_path_before_the_reply_is_missed() {
    let mut conn = Connection2::new();
    let mut request = begin(&mut conn);
    conn.block_on_any_io(Some(response("/other", 0)));
    conn.block_on_any_io(Some(reply(5, Some("/other"))));
    check_wait(request.get_portal_response(&mut conn, 1030), 70);
    match request.get_portal_response(&mut conn, 1100) {
        Blocked::Ready(Err(PortalError::ResponseTimedOut)) => {}
        other => panic!("{:?}", other),
    }
    assert!(!conn.is_registered(0));
}

#[test]
fn late_reply_leaves_the_response_matcher() {
    let mut conn = Connection2::new();
    let mut request = begin(&mut conn);
    match request.get_portal_response(&mut conn, 1100) {
        Blocked::Ready(Err(PortalError::ReplyTimedOut)) => {}
        other => panic!("{:?}", other),
    }
    assert!(conn.is_registered(0));
    assert!(!conn.is_registered(1));
}

#[test]
fn error_reply_is_handed_on() {
    let mut conn = Connection2::new();
    let mut request = begin(&mut conn);
    conn.block_on_any_io(Some(error_reply(5)));
    match request.get_portal_response(&mut conn, 1001) {
        Blocked::Ready(Err(PortalError::ErrorReply(message))) => assert_eq!(message.payload, 77),
        other => panic!("{:?}", other),
    }
    assert!(conn.is_registered(0));
}

#[test]
fn reply_without_path_is_refused() {
    let mut conn = Connection2::new();
    let mut request = begin(&mut conn);
    conn.block_on_any_io(Some(reply(5, None)));
    match request.get_portal_response(&mut conn, 1001) {
        Blocked::Ready(Err(PortalError::NoPath)) => {}
        other => panic!("{:?}", other),
    }
    assert!(conn.is_registered(0));
}

#[test]
fn response_without_results_is_refused() {
    let mut conn = Connection2::new();
    let mut request = begin(&mut conn);
    let mut bad = response(PREDICTED, 0);
    bad.response = Err("wrong types".to_owned());
    conn.block_on_any_io(Some(bad));
    conn.block_on_any_io(Some(reply(5, Some(PREDICTED))));
    match request.get_portal_response(&mut conn, 1001) {
        Blocked::Ready(Err(PortalError::BadResponse(text))) => assert_eq!(text, "wrong types"),
        other => panic!("{:?}", other),
    }
}

#[test]
fn refusal_by_the_user_is_an_error() {
    let mut conn = Connection2::new();
    let mut request = begin(&mut conn);
    conn.block_on_any_io(Some(reply(5, Some(PREDICTED))));
    conn.block_on_any_io(Some(response(PREDICTED, 2)));
    match request.get_portal_response(&mut conn, 1001) {
        Blocked::Ready(Err(PortalError::NonZeroResponse(2))) => {}
        other => panic!("{:?}", other),
    }
}

#[test]
fn reply_to_another_call_does_not_count() {
    let mut conn = Connection2::new();
    let mut request = begin(&mut conn);
    conn.block_on_any_io(Some(reply(6, Some(PREDICTED))));
    check_wait(request.get_portal_response(&mut conn, 1099), 1);
}

#[test]
fn reply_alone() {
    let mut conn = Connection2::new();
    let wait = DbusReply::new(&mut conn, 5, 100, 1000);
    match wait.get_dbus_reply(&mut conn, 900) {
        Blocked::Wait(left) => assert_eq!(left, 100),
        other => panic!("{:?}", other),
    }
    conn.block_on_any_io(Some(reply(5, None)));
    match wait.get_dbus_reply(&mut conn, 1200) {
        Blocked::Ready(Ok(message)) => assert_eq!(message.payload, 1),
        other => panic!("{:?}", other),
    }
    let wait = DbusReply::new(&mut conn, 6, 100, 1000);
    match wait.get_dbus_reply(&mut conn, 1100) {
        Blocked::Ready(Err(PortalError::ReplyTimedOut)) => {}
        other => panic!("{:?}", other),
    }
}

#[test]
fn two_requests_do_not_disturb_each_other() {
    let mut conn = Connection2::new();
    let mut first = begin(&mut conn);
    let mut second = PortalRequest::new(&mut conn, ":1.42", 6, "u", 100, 1000);
    conn.block_on_any_io(Some(reply(6, Some("/second"))));
    conn.block_on_any_io(Some(reply(5, Some("/first"))));
    check_wait(second.get_portal_response(&mut conn, 1010), 90);
    check_wait(first.get_portal_response(&mut conn, 1010), 90);
    conn.block_on_any_io(Some(response("/second", 0)));
    check_wait(first.get_portal_response(&mut conn, 1020), 80);
    check_results(second.get_portal_response(&mut conn, 1020));
    assert!(first.is_waiting(&conn));
    conn.block_on_any_io(Some(response("/first", 0)));
    check_results(first.get_portal_response(&mut conn, 1030));
    assert_eq!(conn.unmatched_n(), 0);
}

#[test]
fn other_messages_between_do_not_matter() {
    let mut conn = Connection2::new();
    let mut request = begin(&mut conn);
    conn.block_on_any_io(Some(reply(9, Some("/x"))));
    conn.block_on_any_io(Some(response(PREDICTED, 0)));
    conn.block_on_any_io(Some(response("/x", 1)));
    // The first response counts.
    conn.block_on_any_io(Some(response(PREDICTED, 3)));
    check_wait(request.get_portal_response(&mut conn, 1010), 90);
    conn.block_on_any_io(Some(reply(9, Some("/x"))));
    conn.block_on_any_io(Some(reply(5, Some("/other"))));
    conn.block_on_any_io(Some(error_reply(5)));
    check_results(request.get_portal_response(&mut conn, 1020));
    assert_eq!(conn.unmatched_n(), 0);
}

#[test]
fn problems_are_told() {
    let reply_timed_out: PortalError<u32> = PortalError::ReplyTimedOut;
    assert_eq!(reply_timed_out.text("m"), "Timed out waiting fo reply");
    assert_eq!(PortalError::ErrorReply(error_reply(5)).text("m"), "Got error reply: m");
    let no_path: PortalError<u32> = PortalError::NoPath;
    assert_eq!(no_path.text("m"), "No path in call return");
    let response_timed_out: PortalError<u32> = PortalError::ResponseTimedOut;
    assert_eq!(response_timed_out.text("m"), "Timed out waiting for response");
    let bad: PortalError<u32> = PortalError::BadResponse("wrong types".to_owned());
    assert_eq!(bad.text("m"), "wrong types");
    let refused: PortalError<u32> = PortalError::NonZeroResponse(u32::MAX);
    assert_eq!(refused.text("m"), "Non-zero response code 4294967295");
}

#[test]
fn plain_call_is_answered_within_a_second() {
    let mut conn: Connection2<u32> = Connection2::new();
    let wait = DbusReply::to_plain_call(&mut conn, 5, 1000);
    assert_eq!(wait, DbusReply { id: 0, begin: 1000, timeout: 1_000_000_000 });
    let (matcher, _) = conn.remove_matcher(0).unwrap();
    assert_eq!(matcher.reply_serial, Some(5));
}
