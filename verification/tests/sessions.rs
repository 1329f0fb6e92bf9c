use portal_capture::calls::{CallArg, MethodCall, OptionValue};
use portal_capture::dbus_util::Connection2;
use portal_capture::dyn_map::DynMap;
use portal_capture::message::{Arg, Message, MessageType};
use portal_capture::object_path::new_long_path;
use portal_capture::portal::PortalError;
use portal_capture::session::{
    array_to_dynmap, checked_session_handle, extract_pipewire_stream_node, extract_session_handle, Phase, ResultsError,
    SessionSetup, SetupError, SetupTurn, SECOND,
};

fn text(t: &str) -> Arg {
    Arg { text: Some(t.to_owned()), number: None, items: None }
}

fn number(n: u64) -> Arg {
    Arg { text: None, number: Some(n), items: None }
}

fn container(items: Vec<Arg>) -> Arg {
    Arg { text: None, number: None, items: Some(items) }
}

fn variant(inner: Arg) -> Arg {
    container(vec![inner])
}

fn properties() -> Arg {
    container(vec![text("source_type"), variant(number(1))])
}

fn streams(list: Vec<Arg>) -> DynMap<Arg> {
    DynMap::new().with_owned("streams".to_owned(), variant(container(list)))
}

fn stream(fields: Vec<Arg>) -> DynMap<Arg> {
    streams(vec![container(fields)])
}

fn handle(t: &str) -> DynMap<Arg> {
    DynMap::new().with_owned("session_handle".to_owned(), text(t))
}

#[test]
fn keys_and_values_in_turn_make_a_dictionary() {
    let items = vec![
        text("a"),
        variant(number(1)),
        text("b"),
        container(vec![number(2), number(3)]),
        text("a"),
        variant(number(4)),
    ];
    let map = array_to_dynmap(&items).unwrap();
    assert_eq!(map.get("a").unwrap().number, Some(4));
    assert_eq!(map.get("b").unwrap().number, Some(2));
    assert!(map.get("c").is_none());
    assert!(array_to_dynmap(&vec![]).is_some());
}

#[test]
fn what_is_no_dictionary_is_refused() {
    assert!(array_to_dynmap(&vec![text("a")]).is_none());
    assert!(array_to_dynmap(&vec![number(1), variant(number(1))]).is_none());
    assert!(array_to_dynmap(&vec![text("a"), number(1)]).is_none());
    assert!(array_to_dynmap(&vec![text("a"), container(vec![])]).is_none());
    assert!(array_to_dynmap(&vec![text("a"), variant(number(1)), text("b")]).is_none());
}

#[test]
fn node_of_the_first_stream() {
    let results = streams(vec![
        container(vec![number(42), properties()]),
        container(vec![number(43), properties()]),
    ]);
    assert!(matches!(extract_pipewire_stream_node(&results), Ok(42)));
}

#[test]
fn node_is_cut_to_its_lower_half() {
    let results = stream(vec![number(0x5_0000_0007), properties()]);
    assert!(matches!(extract_pipewire_stream_node(&results), Ok(7)));
}

#[test]
fn results_without_a_stream() {
    let empty: DynMap<Arg> = DynMap::new();
    assert!(matches!(extract_pipewire_stream_node(&empty), Err(ResultsError::NoStream)));
    assert!(matches!(extract_pipewire_stream_node(&streams(vec![])), Err(ResultsError::NoStream)));
    assert!(matches!(
        extract_pipewire_stream_node(&streams(vec![number(1)])),
        Err(ResultsError::NoStream)
    ));
    let flat = DynMap::new().with_owned("streams".to_owned(), number(1));
    assert!(matches!(extract_pipewire_stream_node(&flat), Err(ResultsError::NoStream)));
}

#[test]
fn stream_without_a_node() {
    assert!(matches!(
        extract_pipewire_stream_node(&stream(vec![])),
        Err(ResultsError::NoNodeId)
    ));
    assert!(matches!(
        extract_pipewire_stream_node(&stream(vec![text("x"), properties()])),
        Err(ResultsError::NoNodeId)
    ));
}

#[test]
fn stream_without_properties() {
    assert!(matches!(
        extract_pipewire_stream_node(&stream(vec![number(1)])),
        Err(ResultsError::NoProperties)
    ));
    assert!(matches!(
        extract_pipewire_stream_node(&stream(vec![number(1), text("x")])),
        Err(ResultsError::NoProperties)
    ));
    assert!(matches!(
        extract_pipewire_stream_node(&stream(vec![number(1), container(vec![text("x")])])),
        Err(ResultsError::NoProperties)
    ));
    assert!(matches!(
        extract_pipewire_stream_node(&stream(vec![number(1), container(vec![])])),
        Ok(1)
    ));
}

#[test]
fn session_handle_must_be_an_object_path() {
    for good in ["/", "/a", "/a/b_1/C", "/org/freedesktop/portal/desktop/session/1_42/t"] {
        assert_eq!(extract_session_handle(&handle(good)).unwrap(), good);
    }
    for bad in ["", "a", "//", "/a/", "/a//b", "/a-b", "/a b", "/\u{e9}", "/a.b"] {
        assert!(matches!(
            extract_session_handle(&handle(bad)),
            Err(ResultsError::BadSessionHandle(_))
        ));
    }
}

#[test]
fn session_handle_is_looked_at_up_to_a_nul() {
    assert_eq!(extract_session_handle(&handle("/a\0-")).unwrap(), "/a\0-");
    assert!(extract_session_handle(&handle("\0/a")).is_err());
}

#[test]
fn refusal_of_a_session_handle_says_why() {
    match extract_session_handle(&handle("##invalid##")) {
        Err(ResultsError::BadSessionHandle(problem)) => {
            assert_eq!(problem, "Object path was not valid: '##invalid##'");
        }
        _ => panic!("the handle is no path"),
    }
}

#[test]
fn session_handle_may_be_missing() {
    let empty: DynMap<Arg> = DynMap::new();
    assert!(matches!(extract_session_handle(&empty), Err(ResultsError::NoSessionHandle)));
    let odd = DynMap::new().with_owned("session_handle".to_owned(), number(1));
    assert!(matches!(extract_session_handle(&odd), Err(ResultsError::NoSessionHandle)));
}

fn reply(serial: u32) -> Message<u32> {
    Message {
        msg_type: MessageType::MethodReturn,
        reply_serial: Some(serial),
        sender: None,
        path: None,
        interface: None,
        member: None,
        path_arg: Some("/request".to_owned()),
        response: Err("no results".to_owned()),
        payload: serial,
    }
}

fn response(results: DynMap<Arg>) -> Message<u32> {
    Message {
        msg_type: MessageType::Signal,
        reply_serial: None,
        sender: None,
        path: Some("/request".to_owned()),
        interface: Some("org.freedesktop.portal.Request".to_owned()),
        member: Some("Response".to_owned()),
        path_arg: None,
        response: Ok((0, results)),
        payload: 0,
    }
}

fn token(call: &MethodCall) -> String {
    match call.args.last() {
        Some(CallArg::Options(options)) => match options.get("handle_token") {
            Some(OptionValue::Text(t)) => t.clone(),
            _ => panic!("no token"),
        },
        _ => panic!("no options"),
    }
}

/// Makes the call of the present phase and answers it with these results.
fn answer(
    setup: &mut SessionSetup,
    conn: &mut Connection2<u32>,
    serial: u32,
    results: DynMap<Arg>,
) -> (MethodCall, SetupTurn<u32>) {
    assert!(conn.has_room());
    let call = setup.next_call(conn);
    assert!(!setup.is_waiting(conn));
    setup.sent(conn, serial, 0);
    assert!(setup.is_waiting(conn));
    conn.block_on_any_io(Some(reply(serial)));
    let limit = if call.method == "Start" { 300 * SECOND } else { SECOND };
    match setup.poll(conn, 10) {
        SetupTurn::Wait(left) => assert_eq!(left, limit - 10),
        other => panic!("{:?}", other),
    }
    conn.block_on_any_io(Some(response(results)));
    let turn = setup.poll(conn, 20);
    (call, turn)
}

#[test]
fn session_with_devices() {
    let mut conn = Connection2::new();
    let mut setup = SessionSetup::new(7, Some(3), ":1.42".to_owned());
    let (call, turn) = answer(&mut setup, &mut conn, 1, handle("/session"));
    assert_eq!(call.method, "CreateSession");
    assert_eq!(call.interface, "org.freedesktop.portal.RemoteDesktop");
    assert_eq!(token(&call), "0");
    assert!(matches!(turn, SetupTurn::Call));
    assert_eq!(setup.phase, Phase::SelectDevices);
    assert_eq!(setup.session_handle, "/session");
    let (call, turn) = answer(&mut setup, &mut conn, 2, DynMap::new());
    assert_eq!(call.method, "SelectDevices");
    assert_eq!(call.interface, "org.freedesktop.portal.RemoteDesktop");
    assert_eq!(token(&call), "2");
    assert!(matches!(turn, SetupTurn::Call));
    assert_eq!(setup.phase, Phase::SelectSources);
    let (call, turn) = answer(&mut setup, &mut conn, 3, DynMap::new());
    assert_eq!(call.method, "SelectSources");
    assert_eq!(call.interface, "org.freedesktop.portal.ScreenCast");
    assert_eq!(token(&call), "3");
    assert!(matches!(turn, SetupTurn::Call));
    assert_eq!(setup.phase, Phase::Start);
    let (call, turn) = answer(&mut setup, &mut conn, 4, stream(vec![number(42), properties()]));
    assert_eq!(call.method, "Start");
    assert_eq!(call.interface, "org.freedesktop.portal.RemoteDesktop");
    assert_eq!(token(&call), "4");
    match turn {
        SetupTurn::Done { session_handle, node_id } => {
            assert_eq!(session_handle, "/session");
            assert_eq!(node_id, 42);
        }
        other => panic!("{:?}", other),
    }
    assert_eq!(conn.unmatched_n(), 0);
}

#[test]
fn session_without_devices() {
    let mut conn = Connection2::new();
    let mut setup = SessionSetup::new(7, None, ":1.42".to_owned());
    let (call, _) = answer(&mut setup, &mut conn, 1, handle("/session"));
    assert_eq!(call.interface, "org.freedesktop.portal.ScreenCast");
    assert_eq!(setup.phase, Phase::SelectSources);
    let (call, _) = answer(&mut setup, &mut conn, 2, DynMap::new());
    assert_eq!(call.method, "SelectSources");
    let (call, turn) = answer(&mut setup, &mut conn, 3, stream(vec![number(9), properties()]));
    assert_eq!(call.method, "Start");
    assert_eq!(call.interface, "org.freedesktop.portal.ScreenCast");
    assert!(matches!(turn, SetupTurn::Done { node_id: 9, .. }));
}

#[test]
fn session_without_a_handle_fails() {
    let mut conn = Connection2::new();
    let mut setup = SessionSetup::new(7, None, ":1.42".to_owned());
    let (_, turn) = answer(&mut setup, &mut conn, 1, DynMap::new());
    assert!(matches!(
        turn,
        SetupTurn::Failed(SetupError::Results(ResultsError::NoSessionHandle))
    ));
    assert_eq!(setup.phase, Phase::CreateSession);
}

#[test]
fn session_without_a_reply_fails() {
    let mut conn: Connection2<u32> = Connection2::new();
    let mut setup = SessionSetup::new(7, None, ":1.42".to_owned());
    setup.next_call(&mut conn);
    setup.sent(&mut conn, 1, 5);
    match setup.poll(&mut conn, 5) {
        SetupTurn::Wait(left) => assert_eq!(left, SECOND),
        other => panic!("{:?}", other),
    }
    assert!(matches!(
        setup.poll(&mut conn, 5 + SECOND),
        SetupTurn::Failed(SetupError::Request(PortalError::ReplyTimedOut))
    ));
}

#[test]
fn session_whose_start_shows_nothing_fails() {
    let mut conn: Connection2<u32> = Connection2::new();
    let mut setup = SessionSetup::new(7, None, ":1.42".to_owned());
    answer(&mut setup, &mut conn, 1, handle("/session"));
    answer(&mut setup, &mut conn, 2, DynMap::new());
    let turn: SetupTurn<u32> = setup.advance(DynMap::new());
    assert!(matches!(turn, SetupTurn::Failed(SetupError::Results(ResultsError::NoStream))));
}

#[test]
fn missing_results_are_told() {
    assert_eq!(ResultsError::NoSessionHandle.text(), "no session handle in response");
    assert_eq!(ResultsError::BadSessionHandle("bad".to_owned()).text(), "bad");
    assert_eq!(ResultsError::NoStream.text(), "no stream in response");
    assert_eq!(ResultsError::NoNodeId.text(), "no ID in stream tuple");
    assert_eq!(ResultsError::NoProperties.text(), "no properties in stream tuple");
    let problem: SetupError<u32> = SetupError::Results(ResultsError::NoStream);
    assert_eq!(problem.text("m"), "no stream in response");
    let problem: SetupError<u32> = SetupError::Request(PortalError::NonZeroResponse(1));
    assert_eq!(problem.text("m"), "Non-zero response code 1");
}

#[test]
fn check_of_a_session_handle_is_handed_on() {
    assert!(matches!(checked_session_handle(Ok("/a".to_owned())), Ok(path) if path == "/a"));
    assert!(matches!(
        checked_session_handle(Err("Not enough memory".to_owned())),
        Err(ResultsError::BadSessionHandle(problem)) if problem == "Not enough memory"
    ));
}

#[test]
fn refusal_quotes_up_to_a_nul() {
    match extract_session_handle(&handle("a\0b")) {
        Err(ResultsError::BadSessionHandle(problem)) => {
            assert_eq!(problem, "Object path was not valid: 'a'");
        }
        _ => panic!("the handle is no path"),
    }
}

#[test]
fn long_paths_are_taken_as_short_ones_are() {
    for text in [
        "/", "/a", "/a/b_1/C9", "/a\0-", "/Z_0/\0", "", "a", "//", "/a/", "/a//b", "/a-b", "/a b",
        "/\u{e9}", "/a.b", "\0/a", "a\0b", "/@", "/[", "/`", "/{", "/:",
    ] {
        let taken = extract_session_handle(&handle(text)).map_err(|e| e.text());
        assert_eq!(new_long_path(text), taken);
    }
}
