//! What the table of matchers holds, matcher by matcher.
use crate::dbus_util::{slots_below, Matcher, Pending, Table};
use crate::dyn_map::{distinct_keys, entries_map};
use crate::message::Message;
use vstd::prelude::*;

verus! {

/// What was asked for, if anything was, is what was found.
pub open spec fn is_found(asked: Option<String>, found: Option<String>) -> bool {
    asked matches Some(a) ==> found matches Some(f) && f@ == a@
}

/// A matcher accepts a message exactly if each thing that it asks for is as it asks.
pub proof fn a_matcher_accepts_exactly_what_it_asks_for<P>(matcher: Matcher, message: Message<P>)
    ensures
        matcher.accepts(message) <==> {
            &&& matcher.message_type matches Some(wanted) ==> message.msg_type == wanted
            &&& matcher.reply_serial matches Some(wanted) ==> message.reply_serial == Some(wanted)
            &&& is_found(matcher.sender, message.sender)
            &&& is_found(matcher.path, message.path)
            &&& is_found(matcher.interface, message.interface)
            &&& is_found(matcher.member, message.member)
        },
{
}

/// A matcher is full once as many messages have come as it waits for; until then it awaits every
/// message that it accepts. What came first stays first.
pub proof fn a_matcher_awaits_messages_until_it_is_full<P>(p: Pending<P>, message: Message<P>)
    ensures
        p.is_full() <==> p.n <= p.messages.len(),
        p.awaits(message) <==> p.messages.len() < p.n && p.matcher.accepts(message),
        p.open_slots() + p.messages.len() == p.n,
        p.messages.len() == 0 ==> p.first_message() is None,
        p.messages.len() > 0 ==> p.first_message() == Some(p.messages[0]),
{
}

/// What registering, removing, delivering and redirecting do to the matcher with the ID `other`.
pub proof fn each_operation_changes_one_matcher<P>(
    table: Table<P>,
    n: usize,
    matcher: Matcher,
    id: usize,
    message: Message<P>,
    path: String,
    other: usize,
)
    requires
        table.next_matcher_id < usize::MAX,
        table.matchers.contains_key(id),
    ensures
        ({
            let new_id = table.next_matcher_id;
            let after = table.registered(n, matcher);
            &&& after.next_matcher_id == new_id + 1
            &&& after.next_token == table.next_token
            &&& after.matchers.contains_key(new_id)
            &&& after.matchers[new_id].n == n
            &&& after.matchers[new_id].matcher == matcher
            &&& after.matchers[new_id].messages.len() == 0
            &&& other != new_id ==> {
                &&& after.matchers.contains_key(other) <==> table.matchers.contains_key(other)
                &&& after.matchers[other] == table.matchers[other]
            }
        }),
        ({
            let after = table.removed(id);
            &&& after.next_matcher_id == table.next_matcher_id
            &&& after.next_token == table.next_token
            &&& !after.matchers.contains_key(id)
            &&& other != id ==> {
                &&& after.matchers.contains_key(other) <==> table.matchers.contains_key(other)
                &&& table.matchers.contains_key(other) ==> after.matchers[other]
                    == table.matchers[other]
            }
        }),
        ({
            let after = table.delivered(id, message);
            let p = table.matchers[id];
            &&& after.next_matcher_id == table.next_matcher_id
            &&& after.next_token == table.next_token
            &&& after.matchers.contains_key(id)
            &&& after.matchers[id].n == p.n
            &&& after.matchers[id].matcher == p.matcher
            &&& after.matchers[id].messages.len() == p.messages.len() + 1
            &&& after.matchers[id].messages.drop_last() == p.messages
            &&& after.matchers[id].messages.last() == message
            &&& other != id ==> {
                &&& after.matchers.contains_key(other) <==> table.matchers.contains_key(other)
                &&& after.matchers[other] == table.matchers[other]
            }
        }),
        ({
            let after = table.redirected(id, path);
            let p = table.matchers[id];
            &&& after.next_matcher_id == table.next_matcher_id
            &&& after.next_token == table.next_token
            &&& after.matchers.contains_key(id)
            &&& after.matchers[id].n == p.n
            &&& after.matchers[id].messages == p.messages
            &&& after.matchers[id].matcher == (Matcher { path: Some(path), ..p.matcher })
            &&& other != id ==> {
                &&& after.matchers.contains_key(other) <==> table.matchers.contains_key(other)
                &&& after.matchers[other] == table.matchers[other]
            }
        }),
{
    assert(table.delivered(id, message).matchers[id].messages.drop_last()
        =~= table.matchers[id].messages);
}

/// A message that came was added to a registered matcher that accepts it and still waited for one, or
/// there is no such matcher and nothing has changed.
pub proof fn a_message_is_dropped_only_if_nobody_waits_for_it<P>(
    before: Table<P>,
    message: Message<P>,
    after: Table<P>,
)
    requires
        before.receives(message, after),
    ensures
        ({
            let waits = |id: usize|
                before.matchers.contains_key(id) && before.matchers[id].messages.len()
                    < before.matchers[id].n && before.matchers[id].matcher.accepts(message);
            &&& (exists|id: usize| #[trigger] waits(id)) ==> (exists|id: usize| #[trigger]
                waits(id) && after.matchers == before.matchers.insert(
                    id,
                    Pending {
                        n: before.matchers[id].n,
                        matcher: before.matchers[id].matcher,
                        messages: before.matchers[id].messages.push(message),
                    },
                ))
            &&& !(exists|id: usize| #[trigger] waits(id)) ==> after == before
        }),
{
    let waits = |id: usize|
        before.matchers.contains_key(id) && before.matchers[id].messages.len()
            < before.matchers[id].n && before.matchers[id].matcher.accepts(message);
    assert forall|id: usize| #[trigger] waits(id) == before.awaits(id, message) by {}
    if exists|id: usize| #[trigger] waits(id) {
        let w = choose|id: usize| #[trigger] waits(id);
        assert(before.awaits(w, message));
        let id = choose|id: usize| #[trigger]
            before.awaits(id, message) && after == before.delivered(id, message);
        assert(waits(id));
    } else {
        assert forall|id: usize| !#[trigger] before.awaits(id, message) by {
            assert(!waits(id));
        }
    }
}

/// Whether numbers are left depends on these three alone.
pub proof fn room_is_for_two_of_each<P>(table: Table<P>)
    ensures
        table.has_room() <==> {
            &&& table.next_matcher_id <= usize::MAX - 2
            &&& table.next_token <= usize::MAX - 2
            &&& table.outstanding() <= usize::MAX - 2
        },
{
}

/// The count of awaited messages of a table in which `id` was given out is that of the others and what
/// `id` still waits for.
proof fn lemma_count_without<P>(matchers: Map<usize, Pending<P>>, id: usize, bound: nat)
    requires
        bound <= usize::MAX,
    ensures
        slots_below(matchers, bound) == slots_below(matchers.remove(id), bound) + if id < bound
            && matchers.contains_key(id) {
            matchers[id].n - matchers[id].messages.len()
        } else {
            0
        },
    decreases bound,
{
    if bound > 0 {
        lemma_count_without(matchers, id, (bound - 1) as nat);
    }
}

/// The count does not change where every matcher below the bound waits for as many messages as before.
proof fn lemma_counts_agree<P>(
    a: Map<usize, Pending<P>>,
    b: Map<usize, Pending<P>>,
    bound: nat,
)
    requires
        bound <= usize::MAX,
        forall|id: usize|
            #![trigger a.contains_key(id)]
            #![trigger b.contains_key(id)]
            id < bound ==> a.contains_key(id) == b.contains_key(id) && (a.contains_key(id) ==> a[id]
                == b[id]),
    ensures
        slots_below(a, bound) == slots_below(b, bound),
    decreases bound,
{
    if bound > 0 {
        lemma_counts_agree(a, b, (bound - 1) as nat);
    }
}

/// Nothing is awaited where no matcher is registered.
pub proof fn no_matcher_awaits_nothing<P>(table: Table<P>)
    requires
        forall|id: usize| !#[trigger] table.matchers.contains_key(id),
    ensures
        table.outstanding() == 0,
{
    lemma_nothing_below(table.matchers, table.next_matcher_id as nat);
}

proof fn lemma_nothing_below<P>(matchers: Map<usize, Pending<P>>, bound: nat)
    requires
        bound <= usize::MAX,
        forall|id: usize| !#[trigger] matchers.contains_key(id),
    ensures
        slots_below(matchers, bound) == 0,
    decreases bound,
{
    if bound > 0 {
        lemma_nothing_below(matchers, (bound - 1) as nat);
    }
}

/// The count of awaited messages goes up by what a new matcher waits for, down by what a removed one
/// still waited for, and down by one with each message that is delivered. Redirecting leaves it as it
/// is.
pub proof fn awaited_messages_are_counted<P>(
    table: Table<P>,
    n: usize,
    matcher: Matcher,
    id: usize,
    message: Message<P>,
    path: String,
)
    requires
        table.inv(),
        table.next_matcher_id < usize::MAX,
        table.matchers.contains_key(id),
    ensures
        table.registered(n, matcher).outstanding() == table.outstanding() + n,
        table.removed(id).outstanding() == table.outstanding() - (table.matchers[id].n
            - table.matchers[id].messages.len()),
        table.delivered(id, message).outstanding() == table.outstanding() - 1,
        table.redirected(id, path).outstanding() == table.outstanding(),
{
    let bound = table.next_matcher_id as nat;
    let before = table.matchers;
    let added = table.registered(n, matcher).matchers;
    lemma_counts_agree(before, added, bound);
    lemma_count_without(before, id, bound);
    let delivered = table.delivered(id, message).matchers;
    lemma_count_without(delivered, id, bound);
    assert(delivered.remove(id) =~= before.remove(id));
    let redirected = table.redirected(id, path).matchers;
    lemma_count_without(redirected, id, bound);
    assert(redirected.remove(id) =~= before.remove(id));
}

/// A list of entries in which no two keys are the same stands for the map from each key to the value
/// beside it, and to nothing else.
pub proof fn entries_stand_for_their_keys<V>(entries: Seq<(String, V)>, i: int, key: Seq<char>)
    requires
        forall|a: int, b: int|
            0 <= a < b < entries.len() ==> #[trigger] entries[a].0@ != #[trigger] entries[b].0@,
        0 <= i < entries.len(),
    ensures
        distinct_keys(entries),
        entries_map(entries).contains_key(entries[i].0@),
        entries_map(entries)[entries[i].0@] == entries[i].1,
        entries_map(entries).contains_key(key) ==> exists|j: int|
            0 <= j < entries.len() && #[trigger] entries[j].0@ == key,
{
    let own = entries[i].0@;
    assert(crate::dyn_map::is_at(entries, own, i));
    let j = choose|j: int| crate::dyn_map::is_at(entries, own, j);
    assert(entries[j].0@ == own);
    if i < j {
        assert(entries[i].0@ != entries[j].0@);
    } else if j < i {
        assert(entries[j].0@ != entries[i].0@);
    }
    if entries_map(entries).contains_key(key) {
        let k = choose|k: int| crate::dyn_map::is_at(entries, key, k);
        assert(entries[k].0@ == key);
    }
}

/// The kinds of source and of device are these bits.
pub proof fn kinds_are_these_bits()
    ensures
        crate::source_types::MONITOR == 1,
        crate::source_types::WINDOW == 2,
        crate::source_types::VIRTUAL == 4,
        crate::source_types::ALL == 7,
        crate::device_types::KEYBOARD == 1,
        crate::device_types::POINTER == 2,
        crate::device_types::TOUCHSCREEN == 4,
        crate::device_types::ALL == 7,
{
    assert(1u32 | 2u32 | 4u32 == 7) by (bit_vector);
}

} // verus!
