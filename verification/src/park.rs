//! Sleeping until the capture is over, or for some time.
use vstd::prelude::*;

verus! {

/// What to do after waking up.
#[derive(Debug, Clone, Copy, PartialEq, Eq, Structural)]
pub enum ParkTurn {
    /// The capture is over.
    Quit,
    /// The whole time has passed.
    TimedOut,
    /// Sleep on, for at most so many nanoseconds.
    Park(u128),
}

/// What to do after waking up `elapsed` after going to sleep for at most `timeout`.
pub open spec fn park_turn(timeout: u128, quit: bool, elapsed: u128) -> ParkTurn {
    if quit {
        ParkTurn::Quit
    } else if elapsed >= timeout {
        ParkTurn::TimedOut
    } else {
        ParkTurn::Park((timeout - elapsed) as u128)
    }
}

/// What to do after waking up `elapsed` after going to sleep for at most `timeout`. That the capture
/// is over counts for more than that the time has passed.
pub fn park_until_quit_w_timeout(timeout: u128, quit: bool, elapsed: u128) -> (turn: ParkTurn)
    ensures
        turn == park_turn(timeout, quit, elapsed),
{
    if quit {
        return ParkTurn::Quit;
    }
    if elapsed >= timeout {
        return ParkTurn::TimedOut;
    }
    ParkTurn::Park(timeout - elapsed)
}

/// The sum of some times.
pub open spec fn total(times: Seq<u128>) -> int
    decreases times.len(),
{
    if times.len() == 0 {
        0
    } else {
        total(times.drop_last()) + times.last()
    }
}

/// What to do after waking up as often as there are `times`, each so long after going to sleep,
/// while the capture is not over.
pub open spec fn park_turns(timeout: u128, times: Seq<u128>) -> ParkTurn
    decreases times.len(),
{
    if times.len() == 0 {
        ParkTurn::Park(timeout)
    } else {
        match park_turns(timeout, times.drop_last()) {
            ParkTurn::Park(left) => park_turn(left, false, times.last()),
            over => over,
        }
    }
}

/// However often it is woken up, a thread sleeps until the times add up to the timeout, and no
/// longer.
pub proof fn parked_times_add_up(timeout: u128, times: Seq<u128>)
    requires
        times.len() > 0,
    ensures
        park_turns(timeout, times) == if total(times) < timeout {
            ParkTurn::Park((timeout - total(times)) as u128)
        } else {
            ParkTurn::TimedOut
        },
    decreases times.len(),
{
    lemma_total_is_positive(times.drop_last());
    if times.len() > 1 {
        parked_times_add_up(timeout, times.drop_last());
    } else {
        assert(total(times.drop_last()) == 0);
        assert(park_turns(timeout, times.drop_last()) == ParkTurn::Park(timeout));
    }
}

proof fn lemma_total_is_positive(times: Seq<u128>)
    ensures
        total(times) >= 0,
    decreases times.len(),
{
    if times.len() > 0 {
        lemma_total_is_positive(times.drop_last());
    }
}

} // verus!
