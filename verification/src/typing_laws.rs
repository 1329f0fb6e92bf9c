//! What a turn of typing does, case by case.
use crate::calls::MethodCallView;
use crate::dbus_util::Table;
use crate::portal::{DbusReply, PortalError};
use crate::request_laws::time_since;
use crate::typing::{typing_step, TypingTurn, TypingTurnView, TypingView};
use vstd::prelude::*;

verus! {

/// Where no reply is awaited, the first of the calls that are left is made, and the others stay left in
/// their order; where none is left, typing is done.
pub proof fn typing_makes_the_first_call_that_is_left<P>(
    typing: TypingView,
    table: Table<P>,
    now: u128,
)
    requires
        typing.reply is None,
    ensures
        ({
            let (after, after_table, turn) = typing_step(typing, table, now);
            &&& after_table == table
            &&& after.reply is None
            &&& typing.left.len() > 0 ==> {
                &&& turn == TypingTurnView::<P>::Call(typing.left[0])
                &&& after.left.len() == typing.left.len() - 1
                &&& forall|i: int|
                    #![trigger after.left[i]]
                    0 <= i < after.left.len() ==> after.left[i] == typing.left[i + 1]
            }
            &&& typing.left.len() == 0 ==> turn == TypingTurnView::<P>::Done && after.left.len() == 0
        }),
{
}

/// Where a reply is awaited, typing waits for it, for the rest of the time, and nothing changes. Once
/// it is there, be it an error or not, typing goes on as if none were awaited; once the time has
/// passed without it, typing fails and no call is left.
pub proof fn typing_waits_for_each_reply<P>(
    typing: TypingView,
    reply: DbusReply,
    table: Table<P>,
    now: u128,
)
    requires
        typing.reply == Some(reply),
        table.matchers.contains_key(reply.id),
    ensures
        ({
            let (after, after_table, turn) = typing_step(typing, table, now);
            let elapsed = time_since(reply.begin, now);
            let p = table.matchers[reply.id];
            let waits = p.messages.len() < p.n && elapsed < reply.timeout;
            let came = p.messages.len() > 0;
            &&& waits ==> {
                &&& after == typing
                &&& after_table == table
                &&& turn is Wait
                &&& turn->Wait_0 + elapsed == reply.timeout
            }
            &&& !waits && !came ==> {
                &&& turn == TypingTurnView::<P>::Failed(PortalError::ReplyTimedOut)
                &&& after.left.len() == 0
                &&& after.reply is None
                &&& after_table.matchers == table.matchers.remove(reply.id)
            }
            &&& !waits && came ==> {
                &&& after_table.matchers == table.matchers.remove(reply.id)
                &&& after.reply is None
                &&& typing.left.len() > 0 ==> {
                    &&& turn == TypingTurnView::<P>::Call(typing.left[0])
                    &&& after.left.len() == typing.left.len() - 1
                    &&& forall|i: int|
                        #![trigger after.left[i]]
                        0 <= i < after.left.len() ==> after.left[i] == typing.left[i + 1]
                }
                &&& typing.left.len() == 0 ==> turn == TypingTurnView::<P>::Done
                    && after.left == Seq::<MethodCallView>::empty()
            }
        }),
{
}

/// Nothing of a turn is left out where it is seen as a value.
pub proof fn a_turn_is_seen_as_it_is<P>(turn: TypingTurn<P>)
    ensures
        match turn {
            TypingTurn::Wait(left) => turn@ == TypingTurnView::<P>::Wait(left),
            TypingTurn::Call(call) => turn@ == TypingTurnView::<P>::Call(call@),
            TypingTurn::Done => turn@ == TypingTurnView::<P>::Done,
            TypingTurn::Failed(problem) => turn@ == TypingTurnView::<P>::Failed(problem),
        },
{
}

/// Typing can go on exactly if the reply that it awaits, if it awaits one, still has its matcher.
pub proof fn typing_needs_the_matcher_of_its_reply<P>(typing: TypingView, table: Table<P>)
    ensures
        typing.is_waiting_in(table) <==> match typing.reply {
            Some(reply) => table.matchers.contains_key(reply.id),
            None => true,
        },
{
}

} // verus!
