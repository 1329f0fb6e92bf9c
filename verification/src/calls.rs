//! The method calls that are made to the desktop portal.
use crate::dyn_map::DynMap;
use crate::text::{decimal, to_decimal};
use vstd::prelude::*;

verus! {

/// The value of an option of a call.
#[derive(Debug)]
pub enum OptionValue {
    Text(String),
    Number(u32),
}

/// What an option's value is, with text as its characters.
pub enum OptionView {
    Text(Seq<char>),
    Number(u32),
}

impl View for OptionValue {
    type V = OptionView;

    open spec fn view(&self) -> OptionView {
        match self {
            OptionValue::Text(text) => OptionView::Text(text@),
            OptionValue::Number(number) => OptionView::Number(*number),
        }
    }
}

/// The options of a call, by name.
pub open spec fn options_view(options: Map<Seq<char>, OptionValue>) -> Map<Seq<char>, OptionView> {
    options.map_values(|value: OptionValue| value@)
}

/// An argument of a call.
#[derive(Debug)]
pub enum CallArg {
    Path(String),
    Text(String),
    Int(i32),
    Uint(u32),
    Options(DynMap<OptionValue>),
}

/// What an argument is, with text as its characters and options as a map.
pub enum CallArgView {
    Path(Seq<char>),
    Text(Seq<char>),
    Int(i32),
    Uint(u32),
    Options(Map<Seq<char>, OptionView>),
}

impl View for CallArg {
    type V = CallArgView;

    open spec fn view(&self) -> CallArgView {
        match self {
            CallArg::Path(path) => CallArgView::Path(path@),
            CallArg::Text(text) => CallArgView::Text(text@),
            CallArg::Int(number) => CallArgView::Int(*number),
            CallArg::Uint(number) => CallArgView::Uint(*number),
            CallArg::Options(options) => CallArgView::Options(options_view(options@)),
        }
    }
}

/// A method call that is still to be sent.
#[derive(Debug)]
pub struct MethodCall {
    pub destination: String,
    pub path: String,
    pub interface: String,
    pub method: String,
    pub args: Vec<CallArg>,
}

/// What a method call is, with text as its characters.
#[verifier::ext_equal]
pub struct MethodCallView {
    pub destination: Seq<char>,
    pub path: Seq<char>,
    pub interface: Seq<char>,
    pub method: Seq<char>,
    pub args: Seq<CallArgView>,
}

impl View for MethodCall {
    type V = MethodCallView;

    open spec fn view(&self) -> MethodCallView {
        MethodCallView {
            destination: self.destination@,
            path: self.path@,
            interface: self.interface@,
            method: self.method@,
            args: self.args@.map_values(|arg: CallArg| arg@),
        }
    }
}

/// The part of the portal that a session is made with.
#[derive(Debug, Clone, Copy, PartialEq, Eq, Structural)]
pub enum Portal {
    ScreenCast,
    RemoteDesktop,
}

/// The name of a part of the portal.
pub open spec fn interface_of(portal: Portal) -> Seq<char> {
    match portal {
        Portal::ScreenCast => "org.freedesktop.portal.ScreenCast"@,
        Portal::RemoteDesktop => "org.freedesktop.portal.RemoteDesktop"@,
    }
}

/// A call of `method` on the desktop portal.
pub open spec fn portal_call(
    portal: Portal,
    method: Seq<char>,
    args: Seq<CallArgView>,
) -> MethodCallView {
    MethodCallView {
        destination: "org.freedesktop.portal.Desktop"@,
        path: "/org/freedesktop/portal/desktop"@,
        interface: interface_of(portal),
        method,
        args,
    }
}

/// A call of `method` on the screen cast portal, without arguments so far.
pub fn new_screen_cast_call(method: &str) -> (call: MethodCall)
    ensures
        call@ == portal_call(Portal::ScreenCast, method@, Seq::empty()),
{
    MethodCall {
        destination: "org.freedesktop.portal.Desktop".to_owned(),
        path: "/org/freedesktop/portal/desktop".to_owned(),
        interface: "org.freedesktop.portal.ScreenCast".to_owned(),
        method: method.to_owned(),
        args: Vec::new(),
    }
}

/// A call of `method` on the remote desktop portal, without arguments so far.
pub fn new_remote_desktop_call(method: &str) -> (call: MethodCall)
    ensures
        call@ == portal_call(Portal::RemoteDesktop, method@, Seq::empty()),
{
    MethodCall {
        destination: "org.freedesktop.portal.Desktop".to_owned(),
        path: "/org/freedesktop/portal/desktop".to_owned(),
        interface: "org.freedesktop.portal.RemoteDesktop".to_owned(),
        method: method.to_owned(),
        args: Vec::new(),
    }
}

/// A call of `method` on `portal`, without arguments so far.
fn new_call(portal: Portal, method: &str) -> (call: MethodCall)
    ensures
        call@ == portal_call(portal, method@, Seq::empty()),
{
    match portal {
        Portal::ScreenCast => new_screen_cast_call(method),
        Portal::RemoteDesktop => new_remote_desktop_call(method),
    }
}

impl MethodCall {
    /// The call with one argument more.
    fn with_arg(self, arg: CallArg) -> (call: Self)
        ensures
            call@ == (MethodCallView { args: self@.args.push(arg@), ..self@ }),
    {
        let MethodCall { destination, path, interface, method, mut args } = self;
        args.push(arg);
        let call = MethodCall { destination, path, interface, method, args };
        assert(call@.args =~= self@.args.push(arg@));
        call
    }
}

/// The options that every request has: the token by which its path is known beforehand.
pub open spec fn handle_options(token: usize) -> Map<Seq<char>, OptionView> {
    Map::empty().insert("handle_token"@, OptionView::Text(decimal(token as nat)))
}

fn request_options(token: usize) -> (options: DynMap<OptionValue>)
    ensures
        options_view(options@) == handle_options(token),
{
    let options = DynMap::new().with_owned(
        "handle_token".to_owned(),
        OptionValue::Text(to_decimal(token)),
    );
    assert(options_view(options@) =~= handle_options(token));
    options
}

/// The call that makes a session, which is to be known by `session_token`.
pub open spec fn create_session_call(
    portal: Portal,
    token: usize,
    session_token: usize,
) -> MethodCallView {
    portal_call(
        portal,
        "CreateSession"@,
        seq![
            CallArgView::Options(
                handle_options(token).insert(
                    "session_handle_token"@,
                    OptionView::Text(decimal(session_token as nat)),
                ),
            ),
        ],
    )
}

/// The call that makes a session, which is to be known by `session_token`.
pub fn new_create_session_call(portal: Portal, token: usize, session_token: usize) -> (call:
    MethodCall)
    ensures
        call@ == create_session_call(portal, token, session_token),
{
    let options = request_options(token).with_owned(
        "session_handle_token".to_owned(),
        OptionValue::Text(to_decimal(session_token)),
    );
    assert(options_view(options@) =~= handle_options(token).insert(
        "session_handle_token"@,
        OptionView::Text(decimal(session_token as nat)),
    ));
    let call = new_call(portal, "CreateSession").with_arg(CallArg::Options(options));
    assert(call@ =~= create_session_call(portal, token, session_token));
    call
}

/// The call that starts a session. It names no parent window.
pub open spec fn start_call(portal: Portal, session: Seq<char>, token: usize) -> MethodCallView {
    portal_call(
        portal,
        "Start"@,
        seq![
            CallArgView::Path(session),
            CallArgView::Text(""@),
            CallArgView::Options(handle_options(token)),
        ],
    )
}

/// The call that starts a session. It names no parent window.
pub fn new_start_call(portal: Portal, session: String, token: usize) -> (call: MethodCall)
    ensures
        call@ == start_call(portal, session@, token),
{
    let call = new_call(portal, "Start").with_arg(CallArg::Path(session)).with_arg(
        CallArg::Text("".to_owned()),
    ).with_arg(CallArg::Options(request_options(token)));
    assert(call@ =~= start_call(portal, session@, token));
    call
}

/// A call that selects what a session is for, by bits.
pub open spec fn select_call(
    portal: Portal,
    method: Seq<char>,
    session: Seq<char>,
    token: usize,
    types: u32,
) -> MethodCallView {
    portal_call(
        portal,
        method,
        seq![
            CallArgView::Path(session),
            CallArgView::Options(
                handle_options(token).insert("types"@, OptionView::Number(types)),
            ),
        ],
    )
}

fn new_select_call(call: MethodCall, session: String, token: usize, types: u32) -> (res: MethodCall)
    ensures
        res@ == (MethodCallView {
            args: call@.args.push(CallArgView::Path(session@)).push(
                CallArgView::Options(
                    handle_options(token).insert("types"@, OptionView::Number(types)),
                ),
            ),
            ..call@
        }),
{
    let options = request_options(token).with_owned("types".to_owned(), OptionValue::Number(types));
    assert(options_view(options@) =~= handle_options(token).insert(
        "types"@,
        OptionView::Number(types),
    ));
    call.with_arg(CallArg::Path(session)).with_arg(CallArg::Options(options))
}

/// The call that selects what a screen cast may show.
pub fn screen_cast_select_sources(session: String, token: usize, source_types: u32) -> (call:
    MethodCall)
    ensures
        call@ == select_call(
            Portal::ScreenCast,
            "SelectSources"@,
            session@,
            token,
            source_types,
        ),
{
    let call = new_select_call(
        new_screen_cast_call("SelectSources"),
        session,
        token,
        source_types,
    );
    assert(call@ =~= select_call(
        Portal::ScreenCast,
        "SelectSources"@,
        session@,
        token,
        source_types,
    ));
    call
}

/// The call that selects what a remote desktop may be controlled with.
pub fn remote_desktop_select_devices(session: String, token: usize, device_types: u32) -> (call:
    MethodCall)
    ensures
        call@ == select_call(
            Portal::RemoteDesktop,
            "SelectDevices"@,
            session@,
            token,
            device_types,
        ),
{
    let call = new_select_call(
        new_remote_desktop_call("SelectDevices"),
        session,
        token,
        device_types,
    );
    assert(call@ =~= select_call(
        Portal::RemoteDesktop,
        "SelectDevices"@,
        session@,
        token,
        device_types,
    ));
    call
}

/// The call that asks for the file descriptor on which the screen cast is sent.
pub fn screen_cast_open_pipe_wire_remote(session: String) -> (call: MethodCall)
    ensures
        call@ == portal_call(
            Portal::ScreenCast,
            "OpenPipeWireRemote"@,
            seq![CallArgView::Path(session@), CallArgView::Options(Map::empty())],
        ),
{
    let options = DynMap::new();
    assert(options_view(options@) =~= Map::<Seq<char>, OptionView>::empty());
    let call = new_screen_cast_call("OpenPipeWireRemote").with_arg(
        CallArg::Path(session),
    ).with_arg(CallArg::Options(options));
    assert(call@.args =~= seq![CallArgView::Path(session@), CallArgView::Options(Map::empty())]);
    call
}

/// The call that presses (1) or releases (0) the key for a character.
pub open spec fn key_call(session: Seq<char>, ch: char, state: u32) -> MethodCallView {
    portal_call(
        Portal::RemoteDesktop,
        "NotifyKeyboardKeysym"@,
        seq![
            CallArgView::Path(session),
            CallArgView::Options(Map::empty()),
            CallArgView::Int(ch as i32),
            CallArgView::Uint(state),
        ],
    )
}

fn new_key_call(session: &String, ch: char, state: u32) -> (call: MethodCall)
    ensures
        call@ == key_call(session@, ch, state),
{
    let options = DynMap::new();
    assert(options_view(options@) =~= Map::<Seq<char>, OptionView>::empty());
    let code = ch as u32;
    let call = new_remote_desktop_call("NotifyKeyboardKeysym").with_arg(
        CallArg::Path(session.clone()),
    ).with_arg(CallArg::Options(options)).with_arg(CallArg::Int(code as i32)).with_arg(
        CallArg::Uint(state),
    );
    assert(call@ =~= key_call(session@, ch, state));
    call
}

/// The calls that type `text`: for each character in turn, its key is pressed and then released.
pub open spec fn typing_calls(session: Seq<char>, text: Seq<char>) -> Seq<MethodCallView> {
    Seq::new(
        2 * text.len(),
        |i: int| key_call(session, text[i / 2], if i % 2 == 0 { 1 } else { 0 }),
    )
}

/// The calls that type `text`, each to be made once the one before it was answered.
pub fn remote_desktop_type(session: &String, text: &str) -> (calls: Vec<MethodCall>)
    ensures
        calls@.map_values(|call: MethodCall| call@) == typing_calls(session@, text@),
{
    let mut calls: Vec<MethodCall> = Vec::new();
    for ch in iter: text.chars()
        invariant
            iter.seq() == text@,
            calls@.map_values(|call: MethodCall| call@) == typing_calls(
                session@,
                text@.take(iter.index() as int),
            ),
    {
        calls.push(new_key_call(session, ch, 1));
        calls.push(new_key_call(session, ch, 0));
        proof {
            let k = iter.index() as int;
            assert(calls@.map_values(|call: MethodCall| call@) =~= typing_calls(
                session@,
                text@.take(k),
            ).push(key_call(session@, ch, 1)).push(key_call(session@, ch, 0)));
            assert(calls@.map_values(|call: MethodCall| call@) =~= typing_calls(
                session@,
                text@.take(k + 1),
            ));
        }
    }
    assert(text@.take(text@.len() as int) =~= text@);
    calls
}

} // verus!
