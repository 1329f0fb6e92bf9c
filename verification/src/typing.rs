//! Typing text on a remote desktop: the calls that are made for it, one after the other.
use crate::calls::{remote_desktop_type, typing_calls, MethodCall, MethodCallView};
use crate::dbus_util::{Blocked, Connection2, Table};
use crate::portal::{
    is_over, left_of, reply_matcher, reply_outcome, since, DbusReply, PortalError,
};
use crate::session::SECOND;
use vstd::prelude::*;

verus! {

/// What to do about typing.
#[derive(Debug)]
pub enum TypingTurn<P> {
    /// Wait for a message, for at most so many nanoseconds.
    Wait(u128),
    /// Make this call.
    Call(MethodCall),
    /// Everything is typed, or typing was given up before.
    Done,
    /// Typing is given up.
    Failed(PortalError<P>),
}

/// What to do about typing, with a call as what it is.
pub enum TypingTurnView<P> {
    Wait(u128),
    Call(MethodCallView),
    Done,
    Failed(PortalError<P>),
}

impl<P> View for TypingTurn<P> {
    type V = TypingTurnView<P>;

    open spec fn view(&self) -> TypingTurnView<P> {
        match self {
            TypingTurn::Wait(left) => TypingTurnView::Wait(*left),
            TypingTurn::Call(call) => TypingTurnView::Call(call@),
            TypingTurn::Done => TypingTurnView::Done,
            TypingTurn::Failed(problem) => TypingTurnView::Failed(*problem),
        }
    }
}

/// How far typing has come: the calls that are left to be made, and the reply that is awaited.
#[verifier::ext_equal]
pub struct TypingView {
    pub left: Seq<MethodCallView>,
    pub reply: Option<DbusReply>,
}

impl TypingView {
    /// The matcher for the reply that is awaited, if one is, is registered.
    pub open spec fn is_waiting_in<P>(self, table: Table<P>) -> bool {
        self.reply is Some ==> table.matchers.contains_key(self.reply->0.id)
    }

    /// No reply is awaited any more, so the first of the calls that are left is made.
    pub open spec fn goes_on<P>(self) -> (TypingView, TypingTurnView<P>) {
        if self.left.len() > 0 {
            (
                TypingView { left: self.left.skip(1), reply: None },
                TypingTurnView::Call(self.left[0]),
            )
        } else {
            (TypingView { left: Seq::empty(), reply: None }, TypingTurnView::Done)
        }
    }
}

/// One turn of typing: what becomes of it and of the table, and what to do. Any reply will do, but
/// where none comes in time, no further call is made.
pub open spec fn typing_step<P>(typing: TypingView, table: Table<P>, now: u128) -> (
    TypingView,
    Table<P>,
    TypingTurnView<P>,
) {
    match typing.reply {
        None => {
            let (after, turn) = typing.goes_on();
            (after, table, turn)
        },
        Some(reply) => {
            let elapsed = since(reply.begin, now);
            let p = table.matchers[reply.id];
            if !is_over(p, reply.timeout, elapsed) {
                (typing, table, TypingTurnView::Wait(left_of(reply.timeout, elapsed)))
            } else {
                match reply_outcome(p.first_message()) {
                    Ok(_) => {
                        let (after, turn) = typing.goes_on();
                        (after, table.removed(reply.id), turn)
                    },
                    Err(problem) => (
                        TypingView { left: Seq::empty(), reply: None },
                        table.removed(reply.id),
                        TypingTurnView::Failed(problem),
                    ),
                }
            }
        },
    }
}

/// Text that is being typed.
#[derive(Debug)]
pub struct Typing {
    left: Vec<MethodCall>,
    reply: Option<DbusReply>,
}

impl View for Typing {
    type V = TypingView;

    closed spec fn view(&self) -> TypingView {
        TypingView {
            left: self.left@.map_values(|call: MethodCall| call@),
            reply: self.reply,
        }
    }
}

impl Typing {
    /// Text of which nothing has been typed yet.
    pub fn new(session: &String, text: &str) -> (typing: Self)
        ensures
            typing@ == (TypingView { left: typing_calls(session@, text@), reply: None }),
    {
        Typing { left: remote_desktop_type(session, text), reply: None }
    }

    /// Whether the matcher for the reply that is awaited, if one is, is registered.
    pub fn is_waiting<P>(&self, conn: &Connection2<P>) -> (res: bool)
        ensures
            res == self@.is_waiting_in(conn@),
    {
        match self.reply {
            Some(reply) => conn.is_registered(reply.id),
            None => true,
        }
    }

    /// Begins to wait, from `now` on, for the reply to the call that was sent with this serial.
    pub fn sent<P>(&mut self, conn: &mut Connection2<P>, serial: u32, now: u128)
        requires
            old(conn).wf(),
            old(conn)@.next_matcher_id < usize::MAX,
            old(conn)@.outstanding() + 1 <= usize::MAX,
        ensures
            final(conn).wf(),
            final(conn)@ == old(conn)@.registered(1, reply_matcher(serial)),
            final(self)@ == (TypingView {
                reply: Some(
                    DbusReply { id: old(conn)@.next_matcher_id, begin: now, timeout: SECOND },
                ),
                ..old(self)@
            }),
            final(self)@.is_waiting_in(final(conn)@),
    {
        self.reply = Some(DbusReply::to_plain_call(conn, serial, now));
    }

    /// The next call, or the news that there is none left.
    fn go_on<P>(&mut self) -> (turn: TypingTurn<P>)
        ensures
            (final(self)@, turn@) == old(self)@.goes_on::<P>(),
    {
        self.reply = None;
        if self.left.len() > 0 {
            let call = self.left.remove(0);
            assert(self@.left =~= old(self)@.left.skip(1));
            TypingTurn::Call(call)
        } else {
            assert(self@.left =~= Seq::<MethodCallView>::empty());
            TypingTurn::Done
        }
    }

    /// One turn of typing: the next call, once the one before it was answered.
    pub fn poll<P>(&mut self, conn: &mut Connection2<P>, now: u128) -> (turn: TypingTurn<P>)
        requires
            old(conn).wf(),
            old(self)@.is_waiting_in(old(conn)@),
        ensures
            final(conn).wf(),
            (final(self)@, final(conn)@, turn@) == typing_step(old(self)@, old(conn)@, now),
            final(self)@.is_waiting_in(final(conn)@),
    {
        match self.reply {
            None => self.go_on(),
            Some(reply) => match reply.get_dbus_reply(conn, now) {
                Blocked::Wait(left) => TypingTurn::Wait(left),
                Blocked::Ready(Ok(_)) => self.go_on(),
                Blocked::Ready(Err(problem)) => {
                    self.reply = None;
                    self.left = Vec::new();
                    assert(self@.left =~= Seq::<MethodCallView>::empty());
                    TypingTurn::Failed(problem)
                },
            },
        }
    }
}

/// Every call that is made is the first of those that were left, and is made only once the reply to
/// the call before it has come.
pub proof fn typing_makes_its_calls_in_order<P>(typing: TypingView, table: Table<P>, now: u128)
    ensures
        typing_step(typing, table, now).2 matches TypingTurnView::Call(call) ==> {
            &&& typing.left == seq![call] + typing_step(typing, table, now).0.left
            &&& typing.reply is Some ==> table.matchers[typing.reply->0.id].messages.len() > 0
        },
{
    if typing.left.len() > 0 {
        assert(typing.left =~= seq![typing.left[0]] + typing.left.skip(1));
    }
}

/// Typing ends only when every call was made and answered, or when it is given up because no reply
/// came in time. From then on no call is made.
pub proof fn typing_that_is_over_stays_over<P>(
    typing: TypingView,
    table: Table<P>,
    now: u128,
    later_table: Table<P>,
    later: u128,
)
    ensures
        ({
            let (after, _, turn) = typing_step(typing, table, now);
            &&& turn is Done ==> {
                &&& typing.left.len() == 0
                &&& typing.reply is Some ==> table.matchers[typing.reply->0.id].messages.len() > 0
            }
            &&& turn matches TypingTurnView::Failed(problem) ==> {
                &&& problem is ReplyTimedOut
                &&& typing.reply is Some
                &&& table.matchers[typing.reply->0.id].messages.len() == 0
                &&& typing.reply->0.timeout <= since(typing.reply->0.begin, now)
                    || table.matchers[typing.reply->0.id].n == 0
            }
            &&& turn is Done || turn is Failed ==> typing_step(after, later_table, later) == (
                after,
                later_table,
                TypingTurnView::<P>::Done,
            )
        }),
{
}

} // verus!
