//! Requests to the desktop portal: a method call, the reply to it, and the signal that carries the
//! response.
use crate::dbus_util::{Blocked, Connection2, Matcher, Pending, Table};
use crate::dyn_map::DynMap;
use crate::message::{Arg, Message, MessageType};
use crate::session::SECOND;
use crate::text::{decimal, replace_after_first, replaced, to_decimal};
use vstd::prelude::*;

verus! {

/// Why a request came to nothing.
#[derive(Debug)]
pub enum PortalError<P> {
    /// No reply to the method call came in time.
    ReplyTimedOut,
    /// The method call was answered with an error.
    ErrorReply(Message<P>),
    /// The reply does not say on which path the response will come.
    NoPath,
    /// No response came in time.
    ResponseTimedOut,
    /// The response does not consist of a code and a dictionary.
    BadResponse(String),
    /// The response code is not zero.
    NonZeroResponse(u32),
}

impl<P> PortalError<P> {
    /// What is told to the user. An error reply is shown as `shown_reply`.
    pub open spec fn told(self, shown_reply: Seq<char>) -> Seq<char> {
        match self {
            PortalError::ReplyTimedOut => "Timed out waiting fo reply"@,
            PortalError::ErrorReply(_) => "Got error reply: "@ + shown_reply,
            PortalError::NoPath => "No path in call return"@,
            PortalError::ResponseTimedOut => "Timed out waiting for response"@,
            PortalError::BadResponse(problem) => problem@,
            PortalError::NonZeroResponse(code) => "Non-zero response code "@ + decimal(code as nat),
        }
    }

    /// What is told to the user. An error reply is shown as `shown_reply`.
    pub fn text(&self, shown_reply: &str) -> (text: String)
        ensures
            text@ == self.told(shown_reply@),
    {
        match self {
            PortalError::ReplyTimedOut => "Timed out waiting fo reply".to_owned(),
            PortalError::ErrorReply(_) => "Got error reply: ".to_owned().concat(shown_reply),
            PortalError::NoPath => "No path in call return".to_owned(),
            PortalError::ResponseTimedOut => "Timed out waiting for response".to_owned(),
            PortalError::BadResponse(problem) => problem.clone(),
            PortalError::NonZeroResponse(code) => {
                let digits = to_decimal(*code as usize);
                "Non-zero response code ".to_owned().concat(digits.as_str())
            },
        }
    }
}

/// The time from `begin` to `now`; none where the clock seems to have gone backwards.
pub open spec fn since(begin: u128, now: u128) -> u128 {
    if begin <= now {
        (now - begin) as u128
    } else {
        0
    }
}

/// A wait of `timeout` for `p` is over, `elapsed` after it began.
pub open spec fn is_over<P>(p: Pending<P>, timeout: u128, elapsed: u128) -> bool {
    p.is_full() || timeout <= elapsed
}

/// What is left of `timeout` after `elapsed`.
pub open spec fn left_of(timeout: u128, elapsed: u128) -> u128 {
    if elapsed <= timeout {
        (timeout - elapsed) as u128
    } else {
        0
    }
}

/// The path on which the response to a request is expected: it is made of the name of the
/// connection, without the colon that it begins with and with underscores for dots, and of the
/// token that the request was given.
pub open spec fn request_path(unique_name: Seq<char>, request_token: Seq<char>) -> Seq<char> {
    "/org/freedesktop/portal/desktop/request/"@ + replaced(unique_name.skip(1), '.', '_') + "/"@
        + request_token
}

/// The path on which the response to a request is expected.
pub fn predicted_request_path(unique_name: &str, request_token: &str) -> (path: String)
    requires
        unique_name@.len() > 0,
        (unique_name@[0] as u32) < 128,
    ensures
        path@ == request_path(unique_name@, request_token@),
{
    let sender = replace_after_first(unique_name, '.', '_');
    "/org/freedesktop/portal/desktop/request/".to_owned().concat(sender.as_str()).concat("/").concat(
        request_token,
    )
}

/// The matcher for the reply to the message with this serial.
pub open spec fn reply_matcher(serial: u32) -> Matcher {
    Matcher {
        message_type: None,
        reply_serial: Some(serial),
        sender: None,
        path: None,
        interface: None,
        member: None,
    }
}

/// `matcher` asks for the signal that carries a response on `path`, from any sender.
pub open spec fn is_response_matcher(matcher: Matcher, path: Seq<char>) -> bool {
    &&& matcher.message_type == Some(MessageType::Signal)
    &&& matcher.reply_serial is None
    &&& matcher.sender is None
    &&& matcher.path is Some && matcher.path->0@ == path
    &&& matcher.interface is Some && matcher.interface->0@ == "org.freedesktop.portal.Request"@
    &&& matcher.member is Some && matcher.member->0@ == "Response"@
}

/// One turn of waiting for the reply to a method call.
pub type ReplyTurn<P> = Blocked<Result<Message<P>, PortalError<P>>>;

/// One turn of waiting for the results of a request.
pub type ResponseTurn<P> = Blocked<Result<DynMap<Arg>, PortalError<P>>>;

/// The reply that came in time, if one did.
pub open spec fn reply_outcome<P>(message: Option<Message<P>>) -> Result<
    Message<P>,
    PortalError<P>,
> {
    match message {
        Some(reply) => Ok(reply),
        None => Err(PortalError::ReplyTimedOut),
    }
}

/// A wait for the reply to a method call.
#[derive(Debug, Clone, Copy, PartialEq, Eq, Structural)]
pub struct DbusReply {
    pub id: usize,
    pub begin: u128,
    pub timeout: u128,
}

impl DbusReply {
    /// Begins to wait, from `now` on, for the reply to the message with this serial.
    pub fn new<P>(conn: &mut Connection2<P>, serial: u32, timeout: u128, now: u128) -> (reply: Self)
        requires
            old(conn).wf(),
            old(conn)@.next_matcher_id < usize::MAX,
            old(conn)@.outstanding() + 1 <= usize::MAX,
        ensures
            final(conn).wf(),
            final(conn)@ == old(conn)@.registered(1, reply_matcher(serial)),
            reply == (DbusReply { id: old(conn)@.next_matcher_id, begin: now, timeout }),
    {
        let matcher = Matcher::new().with_reply_serial(serial);
        let id = conn.register_matcher(1, matcher);
        DbusReply { id, begin: now, timeout }
    }

    /// Begins to wait, from `now` on, for the reply to the message with this serial, which asks
    /// nothing of the user and so is answered within a second.
    pub fn to_plain_call<P>(conn: &mut Connection2<P>, serial: u32, now: u128) -> (reply: Self)
        requires
            old(conn).wf(),
            old(conn)@.next_matcher_id < usize::MAX,
            old(conn)@.outstanding() + 1 <= usize::MAX,
        ensures
            final(conn).wf(),
            final(conn)@ == old(conn)@.registered(1, reply_matcher(serial)),
            reply == (DbusReply { id: old(conn)@.next_matcher_id, begin: now, timeout: SECOND }),
    {
        DbusReply::new(conn, serial, SECOND, now)
    }

    /// One turn of waiting: the reply, once it has come, or the news that it is late.
    pub fn get_dbus_reply<P>(&self, conn: &mut Connection2<P>, now: u128) -> (turn: ReplyTurn<P>)
        requires
            old(conn).wf(),
            old(conn)@.matchers.contains_key(self.id),
        ensures
            final(conn).wf(),
            if is_over(old(conn)@.matchers[self.id], self.timeout, since(self.begin, now)) {
                &&& final(conn)@ == old(conn)@.removed(self.id)
                &&& turn == ReplyTurn::<P>::Ready(
                    reply_outcome(old(conn)@.matchers[self.id].first_message()),
                )
            } else {
                &&& final(conn)@ == old(conn)@
                &&& turn == ReplyTurn::<P>::Wait(left_of(self.timeout, since(self.begin, now)))
            },
    {
        let elapsed = now.saturating_sub(self.begin);
        match conn.block_on_once_matcher_remove(self.id, self.timeout, elapsed) {
            Blocked::Ready((_, Some(message))) => Blocked::Ready(Ok(message)),
            Blocked::Ready((_, None)) => Blocked::Ready(Err(PortalError::ReplyTimedOut)),
            Blocked::Wait(left) => Blocked::Wait(left),
        }
    }
}

/// The path that a reply says the response will come on.
pub open spec fn reply_path<P>(reply: Message<P>) -> Result<String, PortalError<P>> {
    if reply.msg_type == MessageType::Error {
        Err(PortalError::ErrorReply(reply))
    } else {
        match reply.path_arg {
            Some(path) => Ok(path),
            None => Err(PortalError::NoPath),
        }
    }
}

fn read_reply<P>(reply: Message<P>) -> (path: Result<String, PortalError<P>>)
    ensures
        path == reply_path(reply),
{
    if reply.msg_type == MessageType::Error {
        Err(PortalError::ErrorReply(reply))
    } else {
        match reply.path_arg {
            Some(path) => Ok(path),
            None => Err(PortalError::NoPath),
        }
    }
}

/// The results that a response carries.
pub open spec fn response_results<P>(response: Option<Message<P>>) -> Result<
    DynMap<Arg>,
    PortalError<P>,
> {
    match response {
        None => Err(PortalError::ResponseTimedOut),
        Some(message) => match message.response {
            Err(problem) => Err(PortalError::BadResponse(problem)),
            Ok((code, results)) => if code != 0 {
                Err(PortalError::NonZeroResponse(code))
            } else {
                Ok(results)
            },
        },
    }
}

fn read_response<P>(response: Option<Message<P>>) -> (results: Result<DynMap<Arg>, PortalError<P>>)
    ensures
        results == response_results(response),
{
    match response {
        None => Err(PortalError::ResponseTimedOut),
        Some(message) => match message.response {
            Err(problem) => Err(PortalError::BadResponse(problem)),
            Ok((code, results)) => if code != 0 {
                Err(PortalError::NonZeroResponse(code))
            } else {
                Ok(results)
            },
        },
    }
}

/// What a request is waiting for.
#[derive(Debug, Clone, Copy, PartialEq, Eq, Structural)]
pub enum Stage {
    /// The reply to the method call.
    Reply(DbusReply),
    /// The response, for `timeout` from `begin` on.
    Response { begin: u128, timeout: u128 },
}

/// A request whose method call was sent.
#[derive(Debug, Clone, Copy, PartialEq, Eq, Structural)]
pub struct PortalRequest {
    pub response_id: usize,
    pub stage: Stage,
}

/// One turn of waiting for a response with the matcher `id`: what becomes of the table, and what
/// to do.
pub open spec fn response_step<P>(
    table: Table<P>,
    id: usize,
    timeout: u128,
    elapsed: u128,
) -> (Table<P>, ResponseTurn<P>) {
    let p = table.matchers[id];
    if is_over(p, timeout, elapsed) {
        (table.removed(id), ResponseTurn::<P>::Ready(response_results(p.first_message())))
    } else {
        (table, ResponseTurn::<P>::Wait(left_of(timeout, elapsed)))
    }
}

/// One turn of waiting for the results of a request: what becomes of the request and the table,
/// and what to do.
pub open spec fn request_step<P>(request: PortalRequest, table: Table<P>, now: u128) -> (
    PortalRequest,
    Table<P>,
    ResponseTurn<P>,
) {
    let id = request.response_id;
    match request.stage {
        Stage::Reply(reply) => {
            let elapsed = since(reply.begin, now);
            let left = left_of(reply.timeout, elapsed);
            let p = table.matchers[reply.id];
            let replied = table.removed(reply.id);
            if !is_over(p, reply.timeout, elapsed) {
                (request, table, ResponseTurn::<P>::Wait(left))
            } else {
                match reply_outcome(p.first_message()) {
                    Err(problem) => (request, replied, ResponseTurn::<P>::Ready(Err(problem))),
                    Ok(message) => match reply_path(message) {
                        Err(problem) => (request, replied, ResponseTurn::<P>::Ready(Err(problem))),
                        Ok(path) => {
                            let (after, turn) = response_step(
                                replied.redirected(id, path),
                                id,
                                left,
                                0,
                            );
                            let stage = Stage::Response { begin: now, timeout: left };
                            (PortalRequest { stage, ..request }, after, turn)
                        },
                    },
                }
            }
        },
        Stage::Response { begin, timeout } => {
            let (after, turn) = response_step(table, id, timeout, since(begin, now));
            (request, after, turn)
        },
    }
}

/// `request` and `after` are what a request begins with that is made, with this token, by the
/// method call with this serial: a matcher for the response on the path that the token gives, and
/// one for the reply.
pub open spec fn request_begins<P>(
    before: Table<P>,
    unique_name: Seq<char>,
    serial: u32,
    request_token: Seq<char>,
    timeout: u128,
    now: u128,
    request: PortalRequest,
    after: Table<P>,
) -> bool {
    let id = before.next_matcher_id;
    &&& request.response_id == id
    &&& request.stage == Stage::Reply(DbusReply { id: (id + 1) as usize, begin: now, timeout })
    &&& exists|matcher: Matcher|
        #![trigger before.registered(1, matcher)]
        is_response_matcher(matcher, request_path(unique_name, request_token)) && after
            == before.registered(1, matcher).registered(1, reply_matcher(serial))
}

impl PortalRequest {
    /// The matchers of the request are registered.
    pub open spec fn is_waiting_in<P>(self, table: Table<P>) -> bool {
        &&& table.matchers.contains_key(self.response_id)
        &&& match self.stage {
            Stage::Reply(reply) => table.matchers.contains_key(reply.id) && reply.id
                != self.response_id,
            Stage::Response { .. } => true,
        }
    }

    /// Whether the matchers of the request are registered.
    pub fn is_waiting<P>(&self, conn: &Connection2<P>) -> (res: bool)
        ensures
            res == self.is_waiting_in(conn@),
    {
        let reply_waits = match self.stage {
            Stage::Reply(reply) => conn.is_registered(reply.id) && reply.id != self.response_id,
            Stage::Response { .. } => true,
        };
        conn.is_registered(self.response_id) && reply_waits
    }

    /// Begins to wait, from `now` on, for the reply to the method call with this serial, and for
    /// the response. The response is expected on the path that the token was chosen to give, so
    /// that it is not missed where it comes before the reply.
    pub fn new<P>(
        conn: &mut Connection2<P>,
        unique_name: &str,
        serial: u32,
        request_token: &str,
        timeout: u128,
        now: u128,
    ) -> (request: Self)
        requires
            old(conn).wf(),
            old(conn)@.next_matcher_id + 2 <= usize::MAX,
            old(conn)@.outstanding() + 2 <= usize::MAX,
            unique_name@.len() > 0,
            (unique_name@[0] as u32) < 128,
        ensures
            final(conn).wf(),
            request_begins(
                old(conn)@,
                unique_name@,
                serial,
                request_token@,
                timeout,
                now,
                request,
                final(conn)@,
            ),
            request.is_waiting_in(final(conn)@),
    {
        let path = predicted_request_path(unique_name, request_token);
        let response_matcher = Matcher::new().with_message_type(MessageType::Signal).with_path(
            path,
        ).with_interface("org.freedesktop.portal.Request".to_owned()).with_member(
            "Response".to_owned(),
        );
        let response_id = conn.register_matcher(1, response_matcher);
        let reply = DbusReply::new(conn, serial, timeout, now);
        PortalRequest { response_id, stage: Stage::Reply(reply) }
    }

    fn poll_response<P>(&self, conn: &mut Connection2<P>, timeout: u128, elapsed: u128) -> (turn:
        ResponseTurn<P>)
        requires
            old(conn).wf(),
            old(conn)@.matchers.contains_key(self.response_id),
        ensures
            final(conn).wf(),
            (final(conn)@, turn) == response_step(old(conn)@, self.response_id, timeout, elapsed),
    {
        match conn.block_on_once_matcher_remove(self.response_id, timeout, elapsed) {
            Blocked::Ready((_, message)) => Blocked::Ready(read_response(message)),
            Blocked::Wait(left) => Blocked::Wait(left),
        }
    }

    /// One turn of waiting: the results of the request, once the response has come, or why there
    /// are none. When the reply comes, the response is from then on expected on the path that the
    /// reply names, for what is left of the time.
    pub fn get_portal_response<P>(&mut self, conn: &mut Connection2<P>, now: u128) -> (turn:
        ResponseTurn<P>)
        requires
            old(conn).wf(),
            old(self).is_waiting_in(old(conn)@),
        ensures
            final(conn).wf(),
            (*final(self), final(conn)@, turn) == request_step(*old(self), old(conn)@, now),
            turn is Wait ==> final(self).is_waiting_in(final(conn)@),
    {
        match self.stage {
            Stage::Reply(reply) => match reply.get_dbus_reply(conn, now) {
                Blocked::Wait(left) => Blocked::Wait(left),
                Blocked::Ready(Err(problem)) => Blocked::Ready(Err(problem)),
                Blocked::Ready(Ok(message)) => match read_reply(message) {
                    Err(problem) => Blocked::Ready(Err(problem)),
                    Ok(path) => {
                        conn.redirect_matcher(self.response_id, path);
                        let elapsed = now.saturating_sub(reply.begin);
                        let timeout = reply.timeout.saturating_sub(elapsed);
                        self.stage = Stage::Response { begin: now, timeout };
                        self.poll_response(conn, timeout, 0)
                    },
                },
            },
            Stage::Response { begin, timeout } => self.poll_response(
                conn,
                timeout,
                now.saturating_sub(begin),
            ),
        }
    }
}

} // verus!
