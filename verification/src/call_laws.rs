//! What the calls to the desktop portal say, argument by argument.
use crate::calls::{
    create_session_call, key_call, portal_call, select_call, start_call, typing_calls, CallArg,
    CallArgView, MethodCall, MethodCallView, OptionValue, OptionView, Portal,
};
use crate::session::{Phase, SessionSetup};
use crate::text::decimal;
use vstd::prelude::*;

verus! {

/// Nothing of a call is left out where it is seen as a value: its texts, its numbers, and its options
/// under their names.
pub proof fn a_call_is_seen_as_it_is(call: MethodCall, i: int, key: Seq<char>)
    requires
        0 <= i < call.args@.len(),
    ensures
        call@.destination == call.destination@,
        call@.path == call.path@,
        call@.interface == call.interface@,
        call@.method == call.method@,
        call@.args.len() == call.args@.len(),
        match call.args@[i] {
            CallArg::Path(path) => call@.args[i] == CallArgView::Path(path@),
            CallArg::Text(text) => call@.args[i] == CallArgView::Text(text@),
            CallArg::Int(number) => call@.args[i] == CallArgView::Int(number),
            CallArg::Uint(number) => call@.args[i] == CallArgView::Uint(number),
            CallArg::Options(options) => {
                &&& call@.args[i] is Options
                &&& call@.args[i]->Options_0.contains_key(key) <==> options@.contains_key(key)
                &&& options@.contains_key(key) ==> match options@[key] {
                    OptionValue::Text(text) => call@.args[i]->Options_0[key] == OptionView::Text(
                        text@,
                    ),
                    OptionValue::Number(number) => call@.args[i]->Options_0[key]
                        == OptionView::Number(number),
                }
            },
        },
{
}

/// Every call goes to the object of the desktop portal, and names the part of the portal, the method
/// and the arguments that it was made with.
pub proof fn a_call_goes_to_the_desktop_portal(
    portal: Portal,
    method: Seq<char>,
    args: Seq<CallArgView>,
)
    ensures
        portal_call(portal, method, args) == (MethodCallView {
            destination: "org.freedesktop.portal.Desktop"@,
            path: "/org/freedesktop/portal/desktop"@,
            interface: if portal == Portal::RemoteDesktop {
                "org.freedesktop.portal.RemoteDesktop"@
            } else {
                "org.freedesktop.portal.ScreenCast"@
            },
            method,
            args,
        }),
{
}

/// The names of the options are different.
proof fn lemma_option_names_differ()
    ensures
        "handle_token"@ != "types"@,
        "handle_token"@ != "session_handle_token"@,
{
    reveal_strlit("handle_token");
    reveal_strlit("types");
    reveal_strlit("session_handle_token");
    assert("handle_token"@.len() == 12);
    assert("types"@.len() == 5);
    assert("session_handle_token"@.len() == 20);
}

/// `call` is a call of `method` on `portal`.
pub open spec fn calls_method(call: MethodCallView, portal: Portal, method: Seq<char>) -> bool {
    &&& call.destination == "org.freedesktop.portal.Desktop"@
    &&& call.path == "/org/freedesktop/portal/desktop"@
    &&& portal == Portal::ScreenCast ==> call.interface == "org.freedesktop.portal.ScreenCast"@
    &&& portal == Portal::RemoteDesktop ==> call.interface
        == "org.freedesktop.portal.RemoteDesktop"@
    &&& call.method == method
}

/// A session is asked for with two options and no more: the token of the request, and the one by
/// which the session is to be known.
pub proof fn a_session_is_asked_for_by_two_tokens(
    portal: Portal,
    token: usize,
    session_token: usize,
)
    ensures
        ({
            let call = create_session_call(portal, token, session_token);
            &&& calls_method(call, portal, "CreateSession"@)
            &&& call.args.len() == 1
            &&& call.args[0] is Options
            &&& call.args[0]->Options_0.dom() == set!["handle_token"@, "session_handle_token"@]
            &&& call.args[0]->Options_0["handle_token"@] == OptionView::Text(decimal(token as nat))
            &&& call.args[0]->Options_0["session_handle_token"@] == OptionView::Text(
                decimal(session_token as nat),
            )
        }),
{
    lemma_option_names_differ();
    let call = create_session_call(portal, token, session_token);
    assert(call.args[0]->Options_0.dom() =~= set!["handle_token"@, "session_handle_token"@]);
}

/// A selection is made for a session, with the token of the request and exactly the bits that are
/// asked for.
pub proof fn a_selection_asks_for_exactly_the_types(
    portal: Portal,
    method: Seq<char>,
    session: Seq<char>,
    token: usize,
    types: u32,
)
    ensures
        ({
            let call = select_call(portal, method, session, token, types);
            &&& calls_method(call, portal, method)
            &&& call.args.len() == 2
            &&& call.args[0] == CallArgView::Path(session)
            &&& call.args[1] is Options
            &&& call.args[1]->Options_0.dom() == set!["handle_token"@, "types"@]
            &&& call.args[1]->Options_0["handle_token"@] == OptionView::Text(decimal(token as nat))
            &&& call.args[1]->Options_0["types"@] == OptionView::Number(types)
        }),
{
    lemma_option_names_differ();
    let call = select_call(portal, method, session, token, types);
    assert(call.args[1]->Options_0.dom() =~= set!["handle_token"@, "types"@]);
}

/// A session is started without a parent window, with the token of the request.
pub proof fn a_start_names_the_session_and_no_window(
    portal: Portal,
    session: Seq<char>,
    token: usize,
)
    ensures
        ({
            let call = start_call(portal, session, token);
            &&& calls_method(call, portal, "Start"@)
            &&& call.args.len() == 3
            &&& call.args[0] == CallArgView::Path(session)
            &&& call.args[1] == CallArgView::Text(Seq::empty())
            &&& call.args[2] is Options
            &&& call.args[2]->Options_0.dom() == set!["handle_token"@]
            &&& call.args[2]->Options_0["handle_token"@] == OptionView::Text(decimal(token as nat))
        }),
{
    reveal_strlit("");
    assert(""@ =~= Seq::<char>::empty());
    let call = start_call(portal, session, token);
    assert(call.args[2]->Options_0.dom() =~= set!["handle_token"@]);
}

/// What each phase of a set-up asks of the portal. A session that was set up with devices is made and
/// started on the remote desktop, and any other on the screen cast. Devices are selected by the bits
/// that the set-up was given for devices, and sources by those that it was given for sources.
pub proof fn each_phase_asks_for_what_the_set_up_was_given(
    setup: SessionSetup,
    token: usize,
    session_token: usize,
)
    ensures
        ({
            let call = setup.phase_call(token, session_token);
            let session = CallArgView::Path(setup.session_handle@);
            let token_text = OptionView::Text(decimal(token as nat));
            let portal = if setup.device_types is Some {
                Portal::RemoteDesktop
            } else {
                Portal::ScreenCast
            };
            match setup.phase {
                Phase::CreateSession => {
                    &&& calls_method(call, portal, "CreateSession"@)
                    &&& call.args.len() == 1
                    &&& call.args[0] is Options
                    &&& call.args[0]->Options_0.dom()
                        == set!["handle_token"@, "session_handle_token"@]
                    &&& call.args[0]->Options_0["handle_token"@] == token_text
                    &&& call.args[0]->Options_0["session_handle_token"@] == OptionView::Text(
                        decimal(session_token as nat),
                    )
                },
                Phase::SelectDevices => {
                    &&& calls_method(call, Portal::RemoteDesktop, "SelectDevices"@)
                    &&& call.args.len() == 2
                    &&& call.args[0] == session
                    &&& call.args[1] is Options
                    &&& call.args[1]->Options_0.dom() == set!["handle_token"@, "types"@]
                    &&& call.args[1]->Options_0["handle_token"@] == token_text
                    &&& setup.device_types matches Some(types)
                        ==> call.args[1]->Options_0["types"@] == OptionView::Number(types)
                },
                Phase::SelectSources => {
                    &&& calls_method(call, Portal::ScreenCast, "SelectSources"@)
                    &&& call.args.len() == 2
                    &&& call.args[0] == session
                    &&& call.args[1] is Options
                    &&& call.args[1]->Options_0.dom() == set!["handle_token"@, "types"@]
                    &&& call.args[1]->Options_0["handle_token"@] == token_text
                    &&& call.args[1]->Options_0["types"@] == OptionView::Number(setup.source_types)
                },
                Phase::Start => {
                    &&& calls_method(call, portal, "Start"@)
                    &&& call.args.len() == 3
                    &&& call.args[0] == session
                    &&& call.args[1] == CallArgView::Text(Seq::empty())
                    &&& call.args[2] is Options
                    &&& call.args[2]->Options_0.dom() == set!["handle_token"@]
                    &&& call.args[2]->Options_0["handle_token"@] == token_text
                },
            }
        }),
{
    let portal = if setup.device_types is Some {
        Portal::RemoteDesktop
    } else {
        Portal::ScreenCast
    };
    let session = setup.session_handle@;
    match setup.phase {
        Phase::CreateSession => a_session_is_asked_for_by_two_tokens(portal, token, session_token),
        Phase::SelectDevices => a_selection_asks_for_exactly_the_types(
            Portal::RemoteDesktop,
            "SelectDevices"@,
            session,
            token,
            setup.device_types->0,
        ),
        Phase::SelectSources => a_selection_asks_for_exactly_the_types(
            Portal::ScreenCast,
            "SelectSources"@,
            session,
            token,
            setup.source_types,
        ),
        Phase::Start => a_start_names_the_session_and_no_window(portal, session, token),
    }
}

/// `call` reports that the key with the code `code` got into `state`.
pub open spec fn reports_key(
    call: MethodCallView,
    session: Seq<char>,
    code: int,
    state: u32,
) -> bool {
    &&& calls_method(call, Portal::RemoteDesktop, "NotifyKeyboardKeysym"@)
    &&& call.args.len() == 4
    &&& call.args[0] == CallArgView::Path(session)
    &&& call.args[1] is Options
    &&& call.args[1]->Options_0 == Map::<Seq<char>, OptionView>::empty()
    &&& call.args[2] is Int
    &&& call.args[2]->Int_0 == code
    &&& call.args[3] == CallArgView::Uint(state)
}

/// A key is reported by the code point of its character.
pub proof fn a_key_is_reported_by_its_code_point(session: Seq<char>, ch: char, state: u32)
    ensures
        reports_key(key_call(session, ch, state), session, ch as int, state),
{
}

/// Text is typed with two calls for each character, in order: the key whose code is the code point of
/// the character is pressed, and then released.
pub proof fn every_character_is_pressed_and_released(session: Seq<char>, text: Seq<char>, k: int)
    requires
        0 <= k < text.len(),
    ensures
        typing_calls(session, text).len() == 2 * text.len(),
        reports_key(typing_calls(session, text)[2 * k], session, text[k] as int, 1),
        reports_key(typing_calls(session, text)[2 * k + 1], session, text[k] as int, 0),
{
    let ch: char = text[k];
    a_key_is_reported_by_its_code_point(session, ch, 1);
    a_key_is_reported_by_its_code_point(session, ch, 0);
    assert((2 * k) / 2 == k && (2 * k + 1) / 2 == k);
    assert((2 * k) % 2 == 0 && (2 * k + 1) % 2 == 1);
}

/// Different texts are typed with different keys: where two texts differ, so do the codes of the keys
/// that are pressed.
pub proof fn different_characters_are_different_keys(
    session: Seq<char>,
    a: Seq<char>,
    b: Seq<char>,
    k: int,
)
    requires
        0 <= k < a.len(),
        k < b.len(),
        a[k] != b[k],
    ensures
        typing_calls(session, a)[2 * k].args[2] != typing_calls(session, b)[2 * k].args[2],
        typing_calls(session, a)[2 * k + 1].args[2] != typing_calls(session, b)[2 * k + 1].args[2],
{
    every_character_is_pressed_and_released(session, a, k);
    every_character_is_pressed_and_released(session, b, k);
}

} // verus!
