//! What a request comes to, read off the messages that came for it.
use crate::dbus_util::{Matcher, Pending, Table};
use crate::dyn_map::DynMap;
use crate::message::{Arg, Message, MessageType};
use crate::portal::{
    is_over, is_response_matcher, left_of, reply_matcher, reply_outcome, reply_path,
    request_begins, request_path, request_step, response_results, since, DbusReply, PortalError,
    PortalRequest, ResponseTurn, Stage,
};
use crate::text::decimal;
use vstd::prelude::*;

verus! {

/// How long ago `begin` was. A clock that went backwards counts as one that stood still.
pub open spec fn time_since(begin: u128, now: u128) -> int {
    if now < begin {
        0
    } else {
        now - begin
    }
}

/// A wait goes on exactly as long as messages are missing and the time has not passed, and then for
/// the rest of the time.
pub proof fn a_wait_lasts_until_all_is_there_or_the_time_has_passed<P>(
    p: Pending<P>,
    begin: u128,
    timeout: u128,
    now: u128,
)
    ensures
        since(begin, now) == time_since(begin, now),
        is_over(p, timeout, since(begin, now)) <==> p.n <= p.messages.len() || timeout <= time_since(
            begin,
            now,
        ),
        time_since(begin, now) <= timeout ==> left_of(timeout, since(begin, now)) + time_since(
            begin,
            now,
        ) == timeout,
        timeout < time_since(begin, now) ==> left_of(timeout, since(begin, now)) == 0,
{
}

/// The reply to a call is the message that came for it, whatever that is; without one, it is late.
pub proof fn the_first_message_is_the_reply<P>(p: Pending<P>)
    ensures
        p.messages.len() > 0 ==> reply_outcome(p.first_message()) == Ok::<
            Message<P>,
            PortalError<P>,
        >(p.messages[0]),
        p.messages.len() == 0 ==> reply_outcome(p.first_message()) == Err::<
            Message<P>,
            PortalError<P>,
        >(PortalError::ReplyTimedOut),
{
}

/// A reply that is an error is handed on as it is. Any other must have a path as its first argument,
/// which is where the response will come.
pub proof fn a_reply_names_a_path_or_fails<P>(reply: Message<P>)
    ensures
        reply.msg_type == MessageType::Error ==> reply_path(reply) == Err::<String, PortalError<P>>(
            PortalError::ErrorReply(reply),
        ),
        reply.msg_type != MessageType::Error && reply.path_arg is None ==> reply_path(reply)
            == Err::<String, PortalError<P>>(PortalError::NoPath),
        reply.msg_type != MessageType::Error && reply.path_arg is Some ==> reply_path(reply) == Ok::<
            String,
            PortalError<P>,
        >(reply.path_arg->0),
{
}

/// Results are read off a response whose code is zero, and off no other.
pub proof fn only_a_zero_code_gives_results<P>(message: Message<P>, code: u32, results: DynMap<Arg>)
    requires
        message.response == Ok::<(u32, DynMap<Arg>), String>((code, results)),
    ensures
        code == 0 ==> response_results(Some(message)) == Ok::<DynMap<Arg>, PortalError<P>>(results),
        code != 0 ==> response_results(Some(message)) == Err::<DynMap<Arg>, PortalError<P>>(
            PortalError::NonZeroResponse(code),
        ),
{
}

/// `outcome` is what the response, which is the first of `messages`, says: a code of zero comes with
/// results, and every other code is an error. Without a response, it is late.
pub open spec fn is_said_by<P>(
    messages: Seq<Message<P>>,
    outcome: Result<DynMap<Arg>, PortalError<P>>,
) -> bool {
    if messages.len() == 0 {
        outcome == Err::<DynMap<Arg>, PortalError<P>>(PortalError::ResponseTimedOut)
    } else {
        match messages[0].response {
            Err(problem) => outcome == Err::<DynMap<Arg>, PortalError<P>>(
                PortalError::BadResponse(problem),
            ),
            Ok((code, results)) => {
                &&& code == 0 ==> outcome == Ok::<DynMap<Arg>, PortalError<P>>(results)
                &&& code != 0 ==> outcome == Err::<DynMap<Arg>, PortalError<P>>(
                    PortalError::NonZeroResponse(code),
                )
            },
        }
    }
}

/// `p`, asking for `path`.
pub open spec fn asking_for<P>(p: Pending<P>, path: String) -> Pending<P> {
    Pending {
        n: p.n,
        matcher: Matcher {
            message_type: p.matcher.message_type,
            reply_serial: p.matcher.reply_serial,
            sender: p.matcher.sender,
            path: Some(path),
            interface: p.matcher.interface,
            member: p.matcher.member,
        },
        messages: p.messages,
    }
}

/// While the reply is missing and the time has not passed, a request waits for the rest of the time,
/// and nothing changes. Once the time has passed without a reply, it fails.
pub proof fn a_request_waits_for_its_reply<P>(
    request: PortalRequest,
    reply: DbusReply,
    table: Table<P>,
    now: u128,
)
    requires
        request.stage == Stage::Reply(reply),
        request.is_waiting_in(table),
    ensures
        ({
            let (after, after_table, turn) = request_step(request, table, now);
            let elapsed = time_since(reply.begin, now);
            let p = table.matchers[reply.id];
            &&& p.messages.len() < p.n && elapsed < reply.timeout ==> {
                &&& after == request
                &&& after_table == table
                &&& turn is Wait
                &&& turn->Wait_0 + elapsed == reply.timeout
            }
            &&& p.messages.len() == 0 && (p.n == 0 || reply.timeout <= elapsed) ==> {
                &&& after_table.matchers == table.matchers.remove(reply.id)
                &&& turn == ResponseTurn::<P>::Ready(Err(PortalError::ReplyTimedOut))
            }
        }),
{
}

/// A request whose reply is an error, or names no path, is over with that error, and no longer waits
/// for a reply.
pub proof fn a_request_fails_with_its_reply<P>(
    request: PortalRequest,
    reply: DbusReply,
    table: Table<P>,
    now: u128,
)
    requires
        request.stage == Stage::Reply(reply),
        request.is_waiting_in(table),
        table.matchers[reply.id].messages.len() > 0,
        table.matchers[reply.id].n <= table.matchers[reply.id].messages.len() || reply.timeout
            <= time_since(reply.begin, now),
    ensures
        ({
            let message = table.matchers[reply.id].messages[0];
            let (_, after_table, turn) = request_step(request, table, now);
            &&& message.msg_type == MessageType::Error ==> {
                &&& after_table.matchers == table.matchers.remove(reply.id)
                &&& turn == ResponseTurn::<P>::Ready(Err(PortalError::ErrorReply(message)))
            }
            &&& message.msg_type != MessageType::Error && message.path_arg is None ==> {
                &&& after_table.matchers == table.matchers.remove(reply.id)
                &&& turn == ResponseTurn::<P>::Ready(Err(PortalError::NoPath))
            }
        }),
{
}

/// When the reply that names a path is there, a request goes on to the response. If the response is
/// there too, or the time has passed, the request is over with what the response says; otherwise it
/// waits, for the rest of the time, for one on that path.
pub proof fn a_request_goes_on_to_its_response<P>(
    request: PortalRequest,
    reply: DbusReply,
    path: String,
    table: Table<P>,
    now: u128,
)
    requires
        request.stage == Stage::Reply(reply),
        request.is_waiting_in(table),
        table.matchers[reply.id].messages.len() > 0,
        table.matchers[reply.id].n <= table.matchers[reply.id].messages.len() || reply.timeout
            <= time_since(reply.begin, now),
        table.matchers[reply.id].messages[0].msg_type != MessageType::Error,
        table.matchers[reply.id].messages[0].path_arg == Some(path),
    ensures
        ({
            let (after, after_table, turn) = request_step(request, table, now);
            let elapsed = time_since(reply.begin, now);
            let id = request.response_id;
            let p = table.matchers[id];
            if p.messages.len() < p.n && elapsed < reply.timeout {
                &&& turn is Wait
                &&& turn->Wait_0 + elapsed == reply.timeout
                &&& after.response_id == id
                &&& after.stage == Stage::Response {
                    begin: now,
                    timeout: (reply.timeout - elapsed) as u128,
                }
                &&& after_table.matchers == table.matchers.remove(reply.id).insert(
                    id,
                    asking_for(p, path),
                )
            } else {
                &&& turn is Ready
                &&& is_said_by(p.messages, turn->Ready_0)
                &&& after_table.matchers == table.matchers.remove(reply.id).remove(id)
            }
        }),
{
    let (_, after_table, _) = request_step(request, table, now);
    let id = request.response_id;
    let p = table.matchers[id];
    assert(after_table.matchers =~= table.matchers.remove(reply.id).remove(id)
        || after_table.matchers =~= table.matchers.remove(reply.id).insert(
        id,
        asking_for(p, path),
    ));
}

/// While the response is missing and the time has not passed, a request waits for the rest of the
/// time, and nothing changes. After that it is over with what the response says.
pub proof fn a_request_waits_for_its_response<P>(
    request: PortalRequest,
    begin: u128,
    timeout: u128,
    table: Table<P>,
    now: u128,
)
    requires
        request.stage == (Stage::Response { begin, timeout }),
        request.is_waiting_in(table),
    ensures
        ({
            let (after, after_table, turn) = request_step(request, table, now);
            let elapsed = time_since(begin, now);
            let id = request.response_id;
            let p = table.matchers[id];
            if p.messages.len() < p.n && elapsed < timeout {
                &&& turn is Wait
                &&& turn->Wait_0 + elapsed == timeout
                &&& after == request
                &&& after_table == table
            } else {
                &&& turn is Ready
                &&& is_said_by(p.messages, turn->Ready_0)
                &&& after_table.matchers == table.matchers.remove(id)
            }
        }),
{
}

/// A request that has its reply, with a path, and its response is over with results exactly if the
/// code of the response is zero, and then with those of the response. Every other code is an error.
pub proof fn a_refused_request_has_no_results<P>(
    request: PortalRequest,
    table: Table<P>,
    now: u128,
    code: u32,
    results: DynMap<Arg>,
)
    requires
        request.is_waiting_in(table),
        table.matchers[request.response_id].n == 1,
        table.matchers[request.response_id].messages.len() == 1,
        table.matchers[request.response_id].messages[0].response == Ok::<
            (u32, DynMap<Arg>),
            String,
        >((code, results)),
        request.stage matches Stage::Reply(reply) ==> {
            &&& table.matchers[reply.id].n == 1
            &&& table.matchers[reply.id].messages.len() == 1
            &&& table.matchers[reply.id].messages[0].msg_type != MessageType::Error
            &&& table.matchers[reply.id].messages[0].path_arg is Some
        },
    ensures
        ({
            let turn = request_step(request, table, now).2;
            &&& code == 0 ==> turn == ResponseTurn::<P>::Ready(Ok(results))
            &&& code != 0 ==> turn == ResponseTurn::<P>::Ready(
                Err(PortalError::NonZeroResponse(code)),
            )
        }),
{
}

/// `message` is a signal of the portal's requests that carries a response on `path`.
pub open spec fn carries_response<P>(message: Message<P>, path: Seq<char>) -> bool {
    &&& message.msg_type == MessageType::Signal
    &&& message.path matches Some(p) && p@ == path
    &&& message.interface matches Some(i) && i@ == "org.freedesktop.portal.Request"@
    &&& message.member matches Some(m) && m@ == "Response"@
}

/// A matcher for a response takes every response on its path, from whomever it comes, and nothing
/// else; one for a reply takes whatever answers the message with its serial, and nothing else.
pub proof fn what_the_matchers_of_a_request_take<P>(
    matcher: Matcher,
    path: Seq<char>,
    serial: u32,
    message: Message<P>,
)
    ensures
        is_response_matcher(matcher, path) ==> (matcher.accepts(message) <==> carries_response(
            message,
            path,
        )),
        reply_matcher(serial).accepts(message) <==> message.reply_serial == Some(serial),
{
}

/// A request begins with two matchers, each for one message: one for the response on the expected
/// path and one for the reply. Both are there before anything is waited for, and everything else is
/// as it was.
pub proof fn a_request_begins_with_two_matchers<P>(
    before: Table<P>,
    unique_name: Seq<char>,
    serial: u32,
    token: Seq<char>,
    timeout: u128,
    now: u128,
    request: PortalRequest,
    after: Table<P>,
    message: Message<P>,
    other: usize,
)
    requires
        before.inv(),
        before.next_matcher_id + 2 <= usize::MAX,
        request_begins(before, unique_name, serial, token, timeout, now, request, after),
        other != before.next_matcher_id,
        other != before.next_matcher_id + 1,
    ensures
        request.response_id == before.next_matcher_id,
        request.stage == Stage::Reply(
            DbusReply { id: (before.next_matcher_id + 1) as usize, begin: now, timeout },
        ),
        after.next_matcher_id == before.next_matcher_id + 2,
        after.next_token == before.next_token,
        after.matchers.contains_key(other) <==> before.matchers.contains_key(other),
        before.matchers.contains_key(other) ==> after.matchers[other] == before.matchers[other],
        ({
            let response_id = before.next_matcher_id;
            let reply_id = (before.next_matcher_id + 1) as usize;
            &&& after.matchers.contains_key(response_id)
            &&& after.matchers[response_id].n == 1
            &&& after.matchers[response_id].messages.len() == 0
            &&& after.matchers[response_id].matcher.accepts(message) <==> carries_response(
                message,
                request_path(unique_name, token),
            )
            &&& after.matchers.contains_key(reply_id)
            &&& after.matchers[reply_id].n == 1
            &&& after.matchers[reply_id].messages.len() == 0
            &&& after.matchers[reply_id].matcher.accepts(message) <==> message.reply_serial == Some(
                serial,
            )
        }),
{
}

/// A request can go on exactly if the matcher for its response is registered and, until the reply has
/// come, another one for the reply.
pub proof fn a_request_needs_its_matchers<P>(request: PortalRequest, table: Table<P>)
    ensures
        request.is_waiting_in(table) <==> {
            &&& table.matchers.contains_key(request.response_id)
            &&& request.stage matches Stage::Reply(reply) ==> reply.id != request.response_id
                && table.matchers.contains_key(reply.id)
        },
{
}

/// What went wrong with a request is told in these words.
pub proof fn problems_of_a_request_are_told<P>(problem: PortalError<P>, shown_reply: Seq<char>)
    ensures
        problem is ReplyTimedOut ==> problem.told(shown_reply) == "Timed out waiting fo reply"@,
        problem is ErrorReply ==> problem.told(shown_reply) == "Got error reply: "@ + shown_reply,
        problem is NoPath ==> problem.told(shown_reply) == "No path in call return"@,
        problem is ResponseTimedOut ==> problem.told(shown_reply)
            == "Timed out waiting for response"@,
        problem matches PortalError::BadResponse(text) ==> problem.told(shown_reply) == text@,
        problem matches PortalError::NonZeroResponse(code) ==> problem.told(shown_reply)
            == "Non-zero response code "@ + decimal(code as nat),
{
}

} // verus!
