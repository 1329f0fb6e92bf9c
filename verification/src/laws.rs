//! What holds of the library as a whole.
use crate::dbus_util::{Blocked, Matcher, Pending, Table};
use crate::frame::{bgra_swapped, has_whole_pixels};
use crate::message::{Arg, Message, MessageType};
use crate::portal::{
    is_response_matcher, reply_path, request_begins, request_path, request_step, response_results,
    PortalError, PortalRequest, ResponseTurn, Stage,
};
use crate::session::{
    is_session_handle, next_phase, session_handle_text, stream_node, Phase, ResultsError,
    SessionSetup, SetupTurn,
};
use crate::text::{decimal, decimal_is_injective};
use vstd::prelude::*;

verus! {

/// A matcher that asks for nothing accepts every message.
pub proof fn empty_matcher_accepts_everything<P>(matcher: Matcher, message: Message<P>)
    requires
        matcher == (Matcher {
            message_type: None,
            reply_serial: None,
            sender: None,
            path: None,
            interface: None,
            member: None,
        }),
    ensures
        matcher.accepts(message),
{
}

/// Asking for one thing more takes away exactly the messages that do not have it.
pub proof fn asking_for_more_narrows<P>(
    matcher: Matcher,
    message: Message<P>,
    message_type: MessageType,
    reply_serial: u32,
    text: String,
)
    ensures
        matcher.message_type is None ==> ((Matcher {
            message_type: Some(message_type),
            ..matcher
        }).accepts(message) <==> matcher.accepts(message) && message.msg_type == message_type),
        matcher.reply_serial is None ==> ((Matcher {
            reply_serial: Some(reply_serial),
            ..matcher
        }).accepts(message) <==> matcher.accepts(message) && message.reply_serial == Some(
            reply_serial,
        )),
        matcher.sender is None ==> ((Matcher { sender: Some(text), ..matcher }).accepts(message)
            <==> matcher.accepts(message) && message.sender is Some && message.sender->0@ == text@),
        matcher.path is None ==> ((Matcher { path: Some(text), ..matcher }).accepts(message)
            <==> matcher.accepts(message) && message.path is Some && message.path->0@ == text@),
        matcher.interface is None ==> ((Matcher { interface: Some(text), ..matcher }).accepts(
            message,
        ) <==> matcher.accepts(message) && message.interface is Some && message.interface->0@
            == text@),
        matcher.member is None ==> ((Matcher { member: Some(text), ..matcher }).accepts(message)
            <==> matcher.accepts(message) && message.member is Some && message.member->0@ == text@),
{
}

/// Whatever is done to a table, no matcher ever holds more messages than it waits for, and every
/// matcher has an ID that was given out.
pub proof fn every_operation_keeps_the_table_sound<P>(
    table: Table<P>,
    n: usize,
    matcher: Matcher,
    id: usize,
    message: Message<P>,
    path: String,
)
    requires
        table.inv(),
    ensures
        table.next_matcher_id < usize::MAX ==> table.registered(n, matcher).inv(),
        table.removed(id).inv(),
        table.awaits(id, message) ==> table.delivered(id, message).inv(),
        table.matchers.contains_key(id) ==> table.redirected(id, path).inv(),
{
}

/// No two registered matchers ever have the same ID, and an ID is not given out again after its
/// matcher was removed.
pub proof fn ids_are_not_given_out_twice<P>(table: Table<P>, n: usize, matcher: Matcher, id: usize)
    requires
        table.inv(),
        table.next_matcher_id < usize::MAX,
    ensures
        !table.matchers.contains_key(table.next_matcher_id),
        table.registered(n, matcher).next_matcher_id > table.next_matcher_id,
        table.removed(id).next_matcher_id == table.next_matcher_id,
{
}

/// Removing a matcher right after registering it leaves the matchers as they were.
pub proof fn removing_undoes_registering<P>(table: Table<P>, n: usize, matcher: Matcher)
    requires
        table.inv(),
        table.next_matcher_id < usize::MAX,
    ensures
        table.registered(n, matcher).removed(table.next_matcher_id).matchers == table.matchers,
        table.registered(n, matcher).matchers[table.next_matcher_id].matcher == matcher,
        table.registered(n, matcher).matchers[table.next_matcher_id].messages.len() == 0,
{
    assert(table.registered(n, matcher).removed(table.next_matcher_id).matchers
        =~= table.matchers);
}

/// A message is added to at most one matcher, at the end of what it has; all other matchers, and
/// all messages that came before, stay as they are.
pub proof fn a_message_goes_to_at_most_one_matcher<P>(
    before: Table<P>,
    message: Message<P>,
    after: Table<P>,
    a: usize,
    b: usize,
)
    requires
        before.receives(message, after),
        before.matchers.contains_key(a),
        before.matchers.contains_key(b),
        a != b,
    ensures
        after.matchers.dom() == before.matchers.dom(),
        after.next_matcher_id == before.next_matcher_id,
        after.next_token == before.next_token,
        after.matchers[a] == before.matchers[a] || after.matchers[b] == before.matchers[b],
        after.matchers[a] == before.matchers[a] || after.matchers[a] == (Pending {
            messages: before.matchers[a].messages.push(message),
            ..before.matchers[a]
        }),
{
    if exists|id: usize| #[trigger]
        before.awaits(id, message) && after == before.delivered(id, message) {
        let id = choose|id: usize| #[trigger]
            before.awaits(id, message) && after == before.delivered(id, message);
        assert(after.matchers.dom() =~= before.matchers.dom());
    }
}

/// A message that only one matcher awaits is handed to that matcher.
pub proof fn the_only_matcher_that_awaits_a_message_gets_it<P>(
    before: Table<P>,
    message: Message<P>,
    after: Table<P>,
    id: usize,
)
    requires
        before.receives(message, after),
        before.awaits(id, message),
        forall|other: usize| #[trigger] before.awaits(other, message) ==> other == id,
    ensures
        after == before.delivered(id, message),
{
}

/// `after` is `before` once all of `messages` have come, one after the other.
pub open spec fn receives_all<P>(
    before: Table<P>,
    messages: Seq<Message<P>>,
    after: Table<P>,
) -> bool
    decreases messages.len(),
{
    if messages.len() == 0 {
        after == before
    } else {
        exists|between: Table<P>|
            receives_all(before, messages.drop_last(), between) && #[trigger] between.receives(
                messages.last(),
                after,
            )
    }
}

/// The table before the last of some messages came.
proof fn lemma_before_last<P>(
    before: Table<P>,
    messages: Seq<Message<P>>,
    after: Table<P>,
) -> (between: Table<P>)
    requires
        receives_all(before, messages, after),
        messages.len() > 0,
    ensures
        receives_all(before, messages.drop_last(), between),
        between.receives(messages.last(), after),
{
    choose|between: Table<P>|
        receives_all(before, messages.drop_last(), between) && #[trigger] between.receives(
            messages.last(),
            after,
        )
}

/// Those of `messages` that were handed to the matcher `id`, where `picks` says which matcher, if
/// any, each message was handed to.
pub open spec fn handed<P>(
    messages: Seq<Message<P>>,
    picks: Seq<Option<usize>>,
    id: usize,
) -> Seq<Message<P>>
    decreases messages.len(),
{
    if messages.len() == 0 {
        Seq::empty()
    } else {
        let rest = handed(messages.drop_last(), picks.drop_last(), id);
        if picks.last() == Some(id) {
            rest.push(messages.last())
        } else {
            rest
        }
    }
}

/// When the message at `i` comes, the matcher `id` awaits it: it accepts the message, and is not full
/// with what it had and what it was handed since.
pub open spec fn awaits_then<P>(
    before: Table<P>,
    messages: Seq<Message<P>>,
    picks: Seq<Option<usize>>,
    i: int,
    id: usize,
) -> bool {
    let p = before.matchers[id];
    &&& before.matchers.contains_key(id)
    &&& p.matcher.accepts(messages[i])
    &&& p.messages.len() + handed(messages.take(i), picks.take(i), id).len() < p.n
}

/// The message at `i` is handed to a matcher that then awaits it, or dropped because none does.
pub open spec fn is_well_picked<P>(
    before: Table<P>,
    messages: Seq<Message<P>>,
    picks: Seq<Option<usize>>,
    i: int,
) -> bool {
    match picks[i] {
        Some(id) => awaits_then(before, messages, picks, i, id),
        None => forall|id: usize| !#[trigger] awaits_then(before, messages, picks, i, id),
    }
}

/// Each of the messages that come is handed to one matcher that awaits it, or dropped because none
/// does. A matcher keeps what it had, and what it is handed follows in the order in which it came;
/// nothing else changes.
pub proof fn messages_are_handed_out_in_order<P>(
    before: Table<P>,
    messages: Seq<Message<P>>,
    after: Table<P>,
) -> (picks: Seq<Option<usize>>)
    requires
        receives_all(before, messages, after),
    ensures
        picks.len() == messages.len(),
        forall|i: int|
            #![trigger picks[i]]
            0 <= i < messages.len() ==> is_well_picked(before, messages, picks, i),
        after.matchers.dom() == before.matchers.dom(),
        forall|id: usize| #[trigger]
            before.matchers.contains_key(id) ==> after.matchers[id] == (Pending {
                messages: before.matchers[id].messages + handed(messages, picks, id),
                ..before.matchers[id]
            }),
        after.next_matcher_id == before.next_matcher_id,
        after.next_token == before.next_token,
    decreases messages.len(),
{
    if messages.len() == 0 {
        assert forall|id: usize| #[trigger] before.matchers.contains_key(id) implies before.matchers[id].messages
            + handed(messages, Seq::empty(), id) =~= before.matchers[id].messages by {}
        Seq::empty()
    } else {
        let shorter = messages.drop_last();
        let message = messages.last();
        let between = lemma_before_last(before, messages, after);
        let earlier = messages_are_handed_out_in_order(before, shorter, between);
        let last = messages.len() - 1;
        let pick: Option<usize> = if exists|id: usize| #[trigger]
            between.awaits(id, message) && after == between.delivered(id, message) {
            Some(
                choose|id: usize| #[trigger]
                    between.awaits(id, message) && after == between.delivered(id, message),
            )
        } else {
            None
        };
        let picks = earlier.push(pick);
        assert(picks.drop_last() =~= earlier);
        assert(messages.take(last) =~= shorter);
        assert(picks.take(last) =~= earlier);
        assert forall|i: int, id: usize|
            0 <= i < last implies #[trigger] awaits_then(before, messages, picks, i, id)
            == awaits_then(before, shorter, earlier, i, id) by {
            assert(messages.take(i) =~= shorter.take(i));
            assert(picks.take(i) =~= earlier.take(i));
        }
        assert forall|id: usize| #[trigger]
            awaits_then(before, messages, picks, last, id) == between.awaits(id, message) by {
            assert(between.matchers.dom().contains(id) == before.matchers.dom().contains(id));
        }
        assert forall|i: int|
            #![trigger picks[i]]
            0 <= i < messages.len() implies is_well_picked(before, messages, picks, i) by {
            if i < last {
                assert(picks[i] == earlier[i]);
                assert(is_well_picked(before, shorter, earlier, i));
            }
        }
        assert(after.matchers.dom() =~= before.matchers.dom());
        assert forall|id: usize| #[trigger] before.matchers.contains_key(id) implies after.matchers[id]
            == (Pending {
            messages: before.matchers[id].messages + handed(messages, picks, id),
            ..before.matchers[id]
        }) by {
            assert(between.matchers.dom().contains(id));
            if pick == Some(id) {
                assert((before.matchers[id].messages + handed(shorter, earlier, id)).push(message)
                    =~= before.matchers[id].messages + handed(messages, picks, id));
            }
        }
        picks
    }
}

/// Messages that come after others, without anything done between, come as one list.
pub proof fn messages_add_up<P>(
    before: Table<P>,
    first: Seq<Message<P>>,
    between: Table<P>,
    second: Seq<Message<P>>,
    after: Table<P>,
)
    requires
        receives_all(before, first, between),
        receives_all(between, second, after),
    ensures
        receives_all(before, first + second, after),
    decreases second.len(),
{
    if second.len() == 0 {
        assert(first + second =~= first);
    } else {
        let last = lemma_before_last(between, second, after);
        messages_add_up(before, first, between, second.drop_last(), last);
        assert((first + second).drop_last() =~= first + second.drop_last());
        assert((first + second).last() == second.last());
    }
}

/// Of `messages`, the one at `i` is the first that `matcher` accepts.
pub open spec fn is_first_for<P>(matcher: Matcher, messages: Seq<Message<P>>, i: int) -> bool {
    &&& 0 <= i < messages.len()
    &&& matcher.accepts(messages[i])
    &&& forall|k: int| 0 <= k < i ==> !matcher.accepts(#[trigger] messages[k])
}

/// No matcher but `id` accepts `message`.
pub open spec fn is_only_for<P>(table: Table<P>, id: usize, message: Message<P>) -> bool {
    forall|other: usize|
        #![trigger table.matchers[other]]
        table.matchers.contains_key(other) && table.matchers[other].matcher.accepts(message)
            ==> other == id
}

/// A matcher keeps what it asks for, and what it has where it accepts none of the messages that come
/// or is full.
proof fn lemma_matchers_stay<P>(
    before: Table<P>,
    messages: Seq<Message<P>>,
    after: Table<P>,
    id: usize,
)
    requires
        receives_all(before, messages, after),
    ensures
        after.matchers.contains_key(id) == before.matchers.contains_key(id),
        before.matchers.contains_key(id) ==> {
            &&& after.matchers[id].n == before.matchers[id].n
            &&& after.matchers[id].matcher == before.matchers[id].matcher
            &&& before.matchers[id].is_full() || (forall|k: int|
                0 <= k < messages.len() ==> !before.matchers[id].matcher.accepts(
                    #[trigger] messages[k],
                )) ==> after.matchers[id] == before.matchers[id]
        },
    decreases messages.len(),
{
    if messages.len() > 0 {
        let shorter = messages.drop_last();
        let between = lemma_before_last(before, messages, after);
        lemma_matchers_stay(before, shorter, between, id);
        if before.matchers.contains_key(id) && (forall|k: int|
            0 <= k < messages.len() ==> !before.matchers[id].matcher.accepts(#[trigger] messages[k])) {
            assert forall|k: int| 0 <= k < shorter.len() implies !before.matchers[id].matcher.accepts(
                #[trigger] shorter[k],
            ) by {
                assert(shorter[k] == messages[k]);
            }
            assert(!before.matchers[id].matcher.accepts(messages[messages.len() - 1]));
        }
    }
}

/// A matcher that waits for one message is handed the first one that it accepts, and no other,
/// whatever else comes, where no other matcher accepts that message.
pub proof fn the_first_accepted_message_is_kept<P>(
    before: Table<P>,
    messages: Seq<Message<P>>,
    after: Table<P>,
    id: usize,
    i: int,
)
    requires
        receives_all(before, messages, after),
        before.matchers.contains_key(id),
        before.matchers[id].n == 1,
        before.matchers[id].messages.len() == 0,
        is_first_for(before.matchers[id].matcher, messages, i),
        is_only_for(before, id, messages[i]),
    ensures
        after.matchers.contains_key(id),
        after.matchers[id] == (Pending { messages: seq![messages[i]], ..before.matchers[id] }),
    decreases messages.len(),
{
    let shorter = messages.drop_last();
    let message = messages.last();
    let between = lemma_before_last(before, messages, after);
    assert(forall|k: int| 0 <= k < shorter.len() ==> shorter[k] == messages[k]);
    if i < shorter.len() {
        the_first_accepted_message_is_kept(before, shorter, between, id, i);
    } else {
        lemma_matchers_stay(before, shorter, between, id);
        assert(between.awaits(id, message));
        assert forall|other: usize| #[trigger] between.awaits(other, message) implies other == id by {
            lemma_matchers_stay(before, shorter, between, other);
            assert(before.matchers[other].matcher.accepts(message));
        }
        assert(after.matchers[id].messages =~= seq![message]);
    }
}

/// A request stays registered, and its matchers distinct, whatever messages come.
pub proof fn a_request_waits_through_messages<P>(
    before: Table<P>,
    messages: Seq<Message<P>>,
    after: Table<P>,
    request: PortalRequest,
)
    requires
        receives_all(before, messages, after),
        request.is_waiting_in(before),
    ensures
        request.is_waiting_in(after),
{
    lemma_matchers_stay(before, messages, after, request.response_id);
    if let Stage::Reply(reply) = request.stage {
        lemma_matchers_stay(before, messages, after, reply.id);
    }
}

/// `message` is the signal that carries a response on `path`.
pub open spec fn is_response<P>(message: Message<P>, path: Seq<char>) -> bool {
    &&& message.msg_type == MessageType::Signal
    &&& message.path is Some && message.path->0@ == path
    &&& message.interface is Some && message.interface->0@ == "org.freedesktop.portal.Request"@
    &&& message.member is Some && message.member->0@ == "Response"@
}

/// A response on the path that the token was chosen to give is awaited from the moment on at which
/// the request begins, so it is not missed where it comes before the reply.
pub proof fn an_early_response_is_awaited<P>(
    before: Table<P>,
    unique_name: Seq<char>,
    serial: u32,
    token: Seq<char>,
    timeout: u128,
    now: u128,
    request: PortalRequest,
    after: Table<P>,
    message: Message<P>,
)
    requires
        before.inv(),
        before.next_matcher_id + 2 <= usize::MAX,
        request_begins(before, unique_name, serial, token, timeout, now, request, after),
    ensures
        is_response(message, request_path(unique_name, token)) ==> after.awaits(
            request.response_id,
            message,
        ),
        after.awaits(request.response_id, message) ==> is_response(
            message,
            request_path(unique_name, token),
        ),
{
}

/// Once the reply is there, it is the path that the reply names on which a response is awaited.
pub proof fn the_reply_decides_on_the_path<P>(
    table: Table<P>,
    id: usize,
    path: String,
    expected: Seq<char>,
    message: Message<P>,
)
    requires
        table.matchers.contains_key(id),
        is_response_matcher(table.matchers[id].matcher, expected),
        !table.matchers[id].is_full(),
    ensures
        is_response_matcher(table.redirected(id, path).matchers[id].matcher, path@),
        table.redirected(id, path).awaits(id, message) <==> is_response(message, path@),
{
}

/// Once the reply and the response have come, in whatever order, a request is over at once, whatever
/// the time, and its outcome is what the response says.
pub proof fn a_request_returns_its_response<P>(
    request: PortalRequest,
    table: Table<P>,
    now: u128,
    response: Message<P>,
)
    requires
        request.is_waiting_in(table),
        table.matchers[request.response_id].n == 1,
        table.matchers[request.response_id].messages == seq![response],
        request.stage matches Stage::Reply(reply) ==> {
            &&& table.matchers[reply.id].n == 1
            &&& table.matchers[reply.id].messages.len() == 1
            &&& reply_path(table.matchers[reply.id].messages[0]) is Ok
        },
    ensures
        request_step(request, table, now).2 == ResponseTurn::<P>::Ready(
            response_results(Some(response)),
        ),
{
}

/// A matcher for a response accepts exactly the responses on its path.
proof fn lemma_response_matcher_accepts<P>(matcher: Matcher, path: Seq<char>)
    requires
        is_response_matcher(matcher, path),
    ensures
        forall|message: Message<P>| #[trigger]
            matcher.accepts(message) <==> is_response(message, path),
{
}

/// Of `messages`, the one at `i` is the first response on `path`.
pub open spec fn is_first_response<P>(
    messages: Seq<Message<P>>,
    path: Seq<char>,
    i: int,
) -> bool {
    &&& 0 <= i < messages.len()
    &&& is_response(messages[i], path)
    &&& forall|k: int| 0 <= k < i ==> !is_response(#[trigger] messages[k], path)
}

/// None of `messages` is a response on `path`.
pub open spec fn has_no_response<P>(messages: Seq<Message<P>>, path: Seq<char>) -> bool {
    forall|k: int| 0 <= k < messages.len() ==> !is_response(#[trigger] messages[k], path)
}

/// Of `messages`, the one at `j` is the first reply to the message with this serial.
pub open spec fn is_first_reply<P>(messages: Seq<Message<P>>, serial: u32, j: int) -> bool {
    &&& 0 <= j < messages.len()
    &&& messages[j].reply_serial == Some(serial)
    &&& forall|k: int| 0 <= k < j ==> (#[trigger] messages[k]).reply_serial != Some(serial)
}

/// The ID of the matcher for the reply that a request waits for.
pub open spec fn reply_id(request: PortalRequest) -> usize {
    request.stage->Reply_0.id
}

/// Among the messages that came since a request began are a response on the expected path and a reply
/// that names a path. In whatever order they came, and whatever came before, between and after them,
/// the request then is over with the first such response, whatever the time, and leaves no matcher
/// behind.
pub proof fn a_response_on_the_expected_path_is_returned<P>(
    before: Table<P>,
    unique_name: Seq<char>,
    serial: u32,
    token: Seq<char>,
    timeout: u128,
    begin: u128,
    request: PortalRequest,
    begun: Table<P>,
    messages: Seq<Message<P>>,
    table: Table<P>,
    i: int,
    j: int,
    now: u128,
)
    requires
        before.inv(),
        before.next_matcher_id + 2 <= usize::MAX,
        request_begins(before, unique_name, serial, token, timeout, begin, request, begun),
        receives_all(begun, messages, table),
        is_first_response(messages, request_path(unique_name, token), i),
        is_only_for(begun, request.response_id, messages[i]),
        is_first_reply(messages, serial, j),
        is_only_for(begun, reply_id(request), messages[j]),
        reply_path(messages[j]) is Ok,
    ensures
        request.is_waiting_in(table),
        ({
            let (_, after, turn) = request_step(request, table, now);
            &&& turn == ResponseTurn::<P>::Ready(response_results(Some(messages[i])))
            &&& after.matchers.dom() == before.matchers.dom()
        }),
{
    let id = request.response_id;
    let wait = reply_id(request);
    lemma_response_matcher_accepts::<P>(
        begun.matchers[id].matcher,
        request_path(unique_name, token),
    );
    the_first_accepted_message_is_kept(begun, messages, table, id, i);
    the_first_accepted_message_is_kept(begun, messages, table, wait, j);
    a_request_returns_its_response(request, table, now, messages[i]);
    let after = request_step(request, table, now).1;
    assert forall|k: usize| after.matchers.dom().contains(k) == before.matchers.dom().contains(k) by {
        lemma_matchers_stay(begun, messages, table, k);
    }
    assert(after.matchers.dom() =~= before.matchers.dom());
}

/// Where the reply comes first and no response on the expected path has come, a request waits for
/// what is left of the time for a response on the path that the reply names. Whatever else comes, it
/// then is over with the first such response, whatever the time, and leaves no matcher behind.
pub proof fn a_response_on_the_named_path_is_returned<P>(
    before: Table<P>,
    unique_name: Seq<char>,
    serial: u32,
    token: Seq<char>,
    timeout: u128,
    begin: u128,
    request: PortalRequest,
    begun: Table<P>,
    first: Seq<Message<P>>,
    replied: Table<P>,
    j: int,
    replied_at: u128,
    second: Seq<Message<P>>,
    responded: Table<P>,
    i: int,
    now: u128,
)
    requires
        before.inv(),
        before.next_matcher_id + 2 <= usize::MAX,
        request_begins(before, unique_name, serial, token, timeout, begin, request, begun),
        receives_all(begun, first, replied),
        has_no_response(first, request_path(unique_name, token)),
        is_first_reply(first, serial, j),
        is_only_for(begun, reply_id(request), first[j]),
        reply_path(first[j]) is Ok,
        begin <= replied_at < begin + timeout,
        receives_all(request_step(request, replied, replied_at).1, second, responded),
        is_first_response(second, reply_path(first[j])->Ok_0@, i),
        is_only_for(
            request_step(request, replied, replied_at).1,
            request.response_id,
            second[i],
        ),
    ensures
        ({
            let (waiting, _, first_turn) = request_step(request, replied, replied_at);
            let (_, after, turn) = request_step(waiting, responded, now);
            &&& first_turn == ResponseTurn::<P>::Wait((begin + timeout - replied_at) as u128)
            &&& waiting.is_waiting_in(responded)
            &&& turn == ResponseTurn::<P>::Ready(response_results(Some(second[i])))
            &&& after.matchers.dom() == before.matchers.dom()
        }),
{
    let id = request.response_id;
    let path = reply_path(first[j])->Ok_0;
    lemma_response_matcher_accepts::<P>(
        begun.matchers[id].matcher,
        request_path(unique_name, token),
    );
    lemma_matchers_stay(begun, first, replied, id);
    the_first_accepted_message_is_kept(begun, first, replied, reply_id(request), j);
    let (waiting, table, _) = request_step(request, replied, replied_at);
    lemma_response_matcher_accepts::<P>(table.matchers[id].matcher, path@);
    the_first_accepted_message_is_kept(table, second, responded, id, i);
    a_request_returns_its_response(waiting, responded, now, second[i]);
    let after = request_step(waiting, responded, now).1;
    assert forall|k: usize| after.matchers.dom().contains(k) == before.matchers.dom().contains(k) by {
        lemma_matchers_stay(begun, first, replied, k);
        lemma_matchers_stay(table, second, responded, k);
    }
    assert(after.matchers.dom() =~= before.matchers.dom());
}

/// A response that comes before the reply, on another path than the one that the token was chosen to
/// give, is missed: though the reply names that path, and whatever else comes, the request times out
/// unless another response comes.
pub proof fn an_early_response_on_an_unexpected_path_is_missed<P>(
    before: Table<P>,
    unique_name: Seq<char>,
    serial: u32,
    token: Seq<char>,
    timeout: u128,
    begin: u128,
    request: PortalRequest,
    begun: Table<P>,
    first: Seq<Message<P>>,
    replied: Table<P>,
    i: int,
    j: int,
    replied_at: u128,
    second: Seq<Message<P>>,
    later: Table<P>,
    now: u128,
)
    requires
        before.inv(),
        before.next_matcher_id + 2 <= usize::MAX,
        request_begins(before, unique_name, serial, token, timeout, begin, request, begun),
        receives_all(begun, first, replied),
        has_no_response(first, request_path(unique_name, token)),
        is_first_reply(first, serial, j),
        is_only_for(begun, reply_id(request), first[j]),
        reply_path(first[j]) is Ok,
        0 <= i < j,
        is_response(first[i], reply_path(first[j])->Ok_0@),
        begin <= replied_at <= now,
        begin + timeout <= now,
        receives_all(request_step(request, replied, replied_at).1, second, later),
        has_no_response(second, reply_path(first[j])->Ok_0@),
    ensures
        ({
            let (waiting, _, first_turn) = request_step(request, replied, replied_at);
            if replied_at < begin + timeout {
                &&& first_turn == ResponseTurn::<P>::Wait((begin + timeout - replied_at) as u128)
                &&& waiting.is_waiting_in(later)
                &&& request_step(waiting, later, now).2 == ResponseTurn::<P>::Ready(
                    Err(PortalError::ResponseTimedOut),
                )
            } else {
                first_turn == ResponseTurn::<P>::Ready(Err(PortalError::ResponseTimedOut))
            }
        }),
{
    let id = request.response_id;
    let path = reply_path(first[j])->Ok_0;
    lemma_response_matcher_accepts::<P>(
        begun.matchers[id].matcher,
        request_path(unique_name, token),
    );
    lemma_matchers_stay(begun, first, replied, id);
    the_first_accepted_message_is_kept(begun, first, replied, reply_id(request), j);
    if replied_at < begin + timeout {
        let (waiting, table, _) = request_step(request, replied, replied_at);
        lemma_response_matcher_accepts::<P>(table.matchers[id].matcher, path@);
        lemma_matchers_stay(table, second, later, id);
    }
}

/// A turn that waits changes nothing, unless the reply was there.
pub proof fn a_turn_that_waits_changes_nothing<P>(
    request: PortalRequest,
    table: Table<P>,
    now: u128,
)
    requires
        request.is_waiting_in(table),
        request.stage matches Stage::Reply(reply) ==> !table.matchers[reply.id].is_full(),
        request_step(request, table, now).2 is Wait,
    ensures
        request_step(request, table, now).0 == request,
        request_step(request, table, now).1 == table,
{
}

/// The moment at which a request is given up.
pub open spec fn deadline(request: PortalRequest) -> int {
    match request.stage {
        Stage::Reply(reply) => reply.begin + reply.timeout,
        Stage::Response { begin, timeout } => begin + timeout,
    }
}

/// The moment from which on a request waits in its present stage.
pub open spec fn waits_since(request: PortalRequest) -> u128 {
    match request.stage {
        Stage::Reply(reply) => reply.begin,
        Stage::Response { begin, .. } => begin,
    }
}

/// A request has one deadline, which the reply does not move: every wait is until then, and there is
/// no wait from then on.
pub proof fn a_request_keeps_its_deadline<P>(request: PortalRequest, table: Table<P>, now: u128)
    requires
        request.is_waiting_in(table),
        waits_since(request) <= now,
    ensures
        ({
            let (after, _, turn) = request_step(request, table, now);
            &&& turn matches Blocked::Wait(left) ==> {
                &&& now + left == deadline(request)
                &&& deadline(after) == deadline(request)
                &&& waits_since(after) <= now
            }
            &&& deadline(request) <= now ==> turn is Ready
        }),
{
}

/// A request whose reply named a path leaves no matcher behind when it is over, be it with results or
/// because the response was late, unreadable or a refusal. One whose reply failed leaves the matcher
/// for its response, and only that.
pub proof fn what_a_request_leaves_behind<P>(request: PortalRequest, table: Table<P>, now: u128)
    requires
        request.is_waiting_in(table),
        request_step(request, table, now).2 is Ready,
    ensures
        ({
            let (_, after, turn) = request_step(request, table, now);
            let outcome = turn->Ready_0;
            let reply_failed = outcome matches Err(problem) && (problem is ReplyTimedOut
                || problem is ErrorReply || problem is NoPath);
            &&& reply_failed ==> request.stage is Reply
            &&& after.matchers.contains_key(request.response_id) <==> reply_failed
            &&& request.stage matches Stage::Reply(reply) ==> !after.matchers.contains_key(reply.id)
        }),
{
}

/// A turn of waiting for one request leaves the matchers of everything else, and the numbers that are
/// given out next, as they are.
pub proof fn a_request_touches_only_its_own_matchers<P>(
    request: PortalRequest,
    table: Table<P>,
    now: u128,
    other: usize,
)
    requires
        request.is_waiting_in(table),
        other != request.response_id,
        request.stage matches Stage::Reply(reply) ==> other != reply.id,
    ensures
        ({
            let (_, after, _) = request_step(request, table, now);
            &&& after.matchers.contains_key(other) <==> table.matchers.contains_key(other)
            &&& table.matchers.contains_key(other) ==> after.matchers[other]
                == table.matchers[other]
            &&& after.next_matcher_id == table.next_matcher_id
            &&& after.next_token == table.next_token
        }),
{
}

/// Requests with different tokens are answered on different paths.
pub proof fn different_tokens_give_different_paths(unique_name: Seq<char>, a: usize, b: usize)
    requires
        request_path(unique_name, decimal(a as nat)) == request_path(unique_name, decimal(b as nat)),
    ensures
        a == b,
{
    let prefix = request_path(unique_name, Seq::empty());
    let x = request_path(unique_name, decimal(a as nat));
    let y = request_path(unique_name, decimal(b as nat));
    assert(x.skip(prefix.len() as int) =~= decimal(a as nat));
    assert(y.skip(prefix.len() as int) =~= decimal(b as nat));
    decimal_is_injective(a as nat, b as nat);
}

/// The phases that a set-up goes through from `phase` on.
pub open spec fn phases_from(phase: Phase, device_types: Option<u32>) -> Seq<Phase>
    decreases
            match phase {
                Phase::CreateSession => 3int,
                Phase::SelectDevices => 2int,
                Phase::SelectSources => 1int,
                Phase::Start => 0int,
            },
{
    match next_phase(phase, device_types) {
        Some(next) => seq![phase] + phases_from(next, device_types),
        None => seq![phase],
    }
}

/// A session is made, its devices are selected if any are asked for, its sources are selected, and
/// it is started, in this order.
pub proof fn a_session_is_set_up_in_order(device_types: Option<u32>)
    ensures
        phases_from(Phase::CreateSession, device_types) == if device_types is Some {
            seq![Phase::CreateSession, Phase::SelectDevices, Phase::SelectSources, Phase::Start]
        } else {
            seq![Phase::CreateSession, Phase::SelectSources, Phase::Start]
        },
{
    reveal_with_fuel(phases_from, 5);
    assert(phases_from(Phase::Start, device_types) =~= seq![Phase::Start]);
    assert(phases_from(Phase::SelectSources, device_types) =~= seq![
        Phase::SelectSources,
        Phase::Start,
    ]);
    assert(phases_from(Phase::SelectDevices, device_types) =~= seq![
        Phase::SelectDevices,
        Phase::SelectSources,
        Phase::Start,
    ]);
}

/// `b` is `a` but for the request that is being made.
pub open spec fn same_but_for_request(a: SessionSetup, b: SessionSetup) -> bool {
    b == (SessionSetup { token: b.token, request: b.request, ..a })
}

/// Where every request has results, and the results of the first and of the last have what is looked
/// for in them, a set-up ends with the handle that the first gave and the node that the last gave.
/// The set-up is `created` when it makes its first call, `devices` when devices are selected, if they
/// are, `sources` when sources are selected, and `started` when the session is started.
pub proof fn a_session_ends_with_its_handle_and_node<P>(
    created: SessionSetup,
    create_results: Map<Seq<char>, Arg>,
    after_create: SessionSetup,
    create_turn: SetupTurn<P>,
    devices: SessionSetup,
    devices_results: Map<Seq<char>, Arg>,
    after_devices: SessionSetup,
    devices_turn: SetupTurn<P>,
    sources: SessionSetup,
    sources_results: Map<Seq<char>, Arg>,
    after_sources: SessionSetup,
    sources_turn: SetupTurn<P>,
    started: SessionSetup,
    start_results: Map<Seq<char>, Arg>,
    after_start: SessionSetup,
    start_turn: SetupTurn<P>,
    handle: Seq<char>,
    node_id: u32,
)
    requires
        created.phase == Phase::CreateSession,
        session_handle_text(create_results) == Some(handle),
        is_session_handle(handle),
        stream_node(start_results) == Ok::<u32, ResultsError>(node_id),
        created.advances(create_results, after_create, create_turn),
        created.device_types is Some ==> {
            &&& same_but_for_request(after_create, devices)
            &&& devices.advances(devices_results, after_devices, devices_turn)
            &&& same_but_for_request(after_devices, sources)
        },
        created.device_types is None ==> same_but_for_request(after_create, sources),
        sources.advances(sources_results, after_sources, sources_turn),
        same_but_for_request(after_sources, started),
        started.advances(start_results, after_start, start_turn),
    ensures
        create_turn is Call,
        created.device_types is Some ==> devices.phase == Phase::SelectDevices && devices_turn is Call,
        sources.phase == Phase::SelectSources && sources_turn is Call,
        started.phase == Phase::Start,
        start_turn matches SetupTurn::Done { session_handle, node_id: node } && session_handle@
            == handle && node == node_id,
{
}

/// Exchanging red and blue twice gives the picture back.
pub proof fn swapping_red_and_blue_twice_changes_nothing(data: Seq<u8>)
    requires
        has_whole_pixels(data),
    ensures
        bgra_swapped(bgra_swapped(data)) == data,
{
    assert(bgra_swapped(bgra_swapped(data)) =~= data);
}

} // verus!
