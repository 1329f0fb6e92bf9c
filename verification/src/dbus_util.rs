//! Matchers for bus messages, and the table of the matchers that are waiting.
use crate::message::{Message, MessageType};
use std::collections::HashMap;
use vstd::prelude::*;

verus! {

broadcast use vstd::std_specs::hash::group_hash_axioms;

/// What a message must look like. A field that is `None` does not matter.
#[derive(Debug)]
pub struct Matcher {
    pub message_type: Option<MessageType>,
    pub reply_serial: Option<u32>,
    pub sender: Option<String>,
    pub path: Option<String>,
    pub interface: Option<String>,
    pub member: Option<String>,
}

/// The text that is asked for, if any is, is there.
pub open spec fn text_accepts(wanted: Option<String>, found: Option<String>) -> bool {
    match wanted {
        Some(w) => found is Some && found->0@ == w@,
        None => true,
    }
}

fn text_matches(wanted: &Option<String>, found: &Option<String>) -> (res: bool)
    ensures
        res == text_accepts(*wanted, *found),
{
    match wanted {
        Some(w) => match found {
            Some(f) => *f == *w,
            None => false,
        },
        None => true,
    }
}

fn clone_text(text: &Option<String>) -> (res: Option<String>)
    ensures
        res == *text,
{
    match text {
        Some(t) => Some(t.clone()),
        None => None,
    }
}

impl Clone for Matcher {
    fn clone(&self) -> (res: Self)
        ensures
            res == *self,
    {
        Matcher {
            message_type: self.message_type,
            reply_serial: self.reply_serial,
            sender: clone_text(&self.sender),
            path: clone_text(&self.path),
            interface: clone_text(&self.interface),
            member: clone_text(&self.member),
        }
    }
}

impl Matcher {
    /// `message` is as asked for in every field.
    pub open spec fn accepts<P>(self, message: Message<P>) -> bool {
        &&& self.message_type is Some ==> self.message_type == Some(message.msg_type)
        &&& self.reply_serial is Some ==> self.reply_serial == message.reply_serial
        &&& text_accepts(self.sender, message.sender)
        &&& text_accepts(self.path, message.path)
        &&& text_accepts(self.interface, message.interface)
        &&& text_accepts(self.member, message.member)
    }

    /// A matcher that asks for nothing.
    pub fn new() -> (matcher: Self)
        ensures
            matcher == (Matcher {
                message_type: None,
                reply_serial: None,
                sender: None,
                path: None,
                interface: None,
                member: None,
            }),
    {
        Matcher {
            message_type: None,
            reply_serial: None,
            sender: None,
            path: None,
            interface: None,
            member: None,
        }
    }

    /// The matcher, asking for this type.
    pub fn with_message_type(self, message_type: MessageType) -> (matcher: Self)
        ensures
            matcher == (Matcher { message_type: Some(message_type), ..self }),
    {
        Matcher { message_type: Some(message_type), ..self }
    }

    /// The matcher, asking for an answer to the message with this serial.
    pub fn with_reply_serial(self, reply_serial: u32) -> (matcher: Self)
        ensures
            matcher == (Matcher { reply_serial: Some(reply_serial), ..self }),
    {
        Matcher { reply_serial: Some(reply_serial), ..self }
    }

    /// The matcher, asking for this sender.
    pub fn with_sender(self, sender: String) -> (matcher: Self)
        ensures
            matcher == (Matcher { sender: Some(sender), ..self }),
    {
        Matcher { sender: Some(sender), ..self }
    }

    /// The matcher, asking for this path.
    pub fn with_path(self, path: String) -> (matcher: Self)
        ensures
            matcher == (Matcher { path: Some(path), ..self }),
    {
        Matcher { path: Some(path), ..self }
    }

    /// The matcher, asking for this interface.
    pub fn with_interface(self, interface: String) -> (matcher: Self)
        ensures
            matcher == (Matcher { interface: Some(interface), ..self }),
    {
        Matcher { interface: Some(interface), ..self }
    }

    /// The matcher, asking for this member.
    pub fn with_member(self, member: String) -> (matcher: Self)
        ensures
            matcher == (Matcher { member: Some(member), ..self }),
    {
        Matcher { member: Some(member), ..self }
    }

    /// Whether `message` is as asked for in every field.
    pub fn matches<P>(&self, message: &Message<P>) -> (res: bool)
        ensures
            res == self.accepts(*message),
    {
        let type_matches = match self.message_type {
            Some(wanted) => wanted == message.msg_type,
            None => true,
        };
        let serial_matches = match self.reply_serial {
            Some(wanted) => match message.reply_serial {
                Some(found) => found == wanted,
                None => false,
            },
            None => true,
        };
        type_matches && serial_matches && text_matches(&self.sender, &message.sender)
            && text_matches(&self.path, &message.path) && text_matches(
            &self.interface,
            &message.interface,
        ) && text_matches(&self.member, &message.member)
    }
}

/// A registered matcher: how many messages it waits for, and those that have come.
pub struct Pending<P> {
    pub n: usize,
    pub matcher: Matcher,
    pub messages: Seq<Message<P>>,
}

impl<P> Pending<P> {
    /// How many messages are still awaited.
    pub open spec fn open_slots(self) -> int {
        self.n - self.messages.len()
    }

    /// Every awaited message has come.
    pub open spec fn is_full(self) -> bool {
        self.messages.len() >= self.n
    }

    /// The message that came first, if one has come.
    pub open spec fn first_message(self) -> Option<Message<P>> {
        if self.messages.len() == 0 {
            None
        } else {
            Some(self.messages[0])
        }
    }

    /// `message` is one of those awaited.
    pub open spec fn awaits(self, message: Message<P>) -> bool {
        !self.is_full() && self.matcher.accepts(message)
    }
}

/// The number of messages awaited by the matchers whose ID is below `bound`.
pub open spec fn slots_below<P>(matchers: Map<usize, Pending<P>>, bound: nat) -> int
    decreases bound,
{
    if bound == 0 {
        0
    } else {
        let id = (bound - 1) as usize;
        slots_below(matchers, (bound - 1) as nat) + if matchers.contains_key(id) {
            matchers[id].open_slots()
        } else {
            0
        }
    }
}

/// What a connection holds: the registered matchers by their ID, and the numbers not yet given
/// out as the ID of a matcher and as a token.
#[verifier::ext_equal]
pub struct Table<P> {
    pub matchers: Map<usize, Pending<P>>,
    pub next_matcher_id: usize,
    pub next_token: usize,
}

impl<P> Table<P> {
    /// Every matcher has an ID that was given out, and holds no more messages than it waits for.
    pub open spec fn inv(self) -> bool {
        forall|id: usize| #[trigger]
            self.matchers.contains_key(id) ==> {
                &&& id < self.next_matcher_id
                &&& self.matchers[id].messages.len() <= self.matchers[id].n
            }
    }

    /// The number of messages that are still awaited, over all matchers.
    pub open spec fn outstanding(self) -> int {
        slots_below(self.matchers, self.next_matcher_id as nat)
    }

    /// Numbers are left for a request, which takes two tokens and two matchers at most.
    pub open spec fn has_room(self) -> bool {
        &&& self.next_matcher_id + 2 <= usize::MAX
        &&& self.outstanding() + 2 <= usize::MAX
        &&& self.next_token + 2 <= usize::MAX
    }

    /// The matcher `id` is registered and awaits `message`.
    pub open spec fn awaits(self, id: usize, message: Message<P>) -> bool {
        self.matchers.contains_key(id) && self.matchers[id].awaits(message)
    }

    /// With a matcher registered for `n` messages.
    pub open spec fn registered(self, n: usize, matcher: Matcher) -> Table<P> {
        Table {
            matchers: self.matchers.insert(
                self.next_matcher_id,
                Pending { n, matcher, messages: Seq::empty() },
            ),
            next_matcher_id: (self.next_matcher_id + 1) as usize,
            ..self
        }
    }

    /// Without the matcher `id`.
    pub open spec fn removed(self, id: usize) -> Table<P> {
        Table { matchers: self.matchers.remove(id), ..self }
    }

    /// With `message` handed to the matcher `id`.
    pub open spec fn delivered(self, id: usize, message: Message<P>) -> Table<P> {
        let p = self.matchers[id];
        Table {
            matchers: self.matchers.insert(
                id,
                Pending { messages: p.messages.push(message), ..p },
            ),
            ..self
        }
    }

    /// With the matcher `id` asking for `path`.
    pub open spec fn redirected(self, id: usize, path: String) -> Table<P> {
        let p = self.matchers[id];
        Table {
            matchers: self.matchers.insert(
                id,
                Pending { matcher: Matcher { path: Some(path), ..p.matcher }, ..p },
            ),
            ..self
        }
    }

    /// `after` is this table once `message` has come: it was handed to one of the matchers that
    /// await it, or dropped because none does.
    pub open spec fn receives(self, message: Message<P>, after: Table<P>) -> bool {
        ||| exists|id: usize| #[trigger]
            self.awaits(id, message) && after == self.delivered(id, message)
        ||| (forall|id: usize| !#[trigger] self.awaits(id, message)) && after == self
    }
}

/// What to do about a wait: it is over, or it goes on for at most so many nanoseconds.
#[derive(Debug)]
pub enum Blocked<T> {
    Ready(T),
    Wait(u128),
}

/// The matchers that wait for messages on one connection.
pub struct Connection2<P> {
    next_matcher_id: usize,
    matchers: HashMap<usize, (usize, Matcher, Vec<Message<P>>)>,
    unmatched_n: usize,
    next_token: usize,
}

/// What an entry of the table stands for.
pub open spec fn pending<P>(entry: (usize, Matcher, Vec<Message<P>>)) -> Pending<P> {
    Pending { n: entry.0, matcher: entry.1, messages: entry.2@ }
}

impl<P> View for Connection2<P> {
    type V = Table<P>;

    closed spec fn view(&self) -> Table<P> {
        Table {
            matchers: self.matchers@.map_values(
                |entry: (usize, Matcher, Vec<Message<P>>)| pending(entry),
            ),
            next_matcher_id: self.next_matcher_id,
            next_token: self.next_token,
        }
    }
}

impl<P> Connection2<P> {
    /// The count of awaited messages is right.
    pub closed spec fn counts(&self) -> bool {
        self.unmatched_n == self@.outstanding()
    }

    /// The matchers are sound, and the count of what they await is right.
    pub open spec fn wf(&self) -> bool {
        self@.inv() && self.counts()
    }

    /// No matcher is registered, and no number has been given out.
    pub fn new() -> (conn: Self)
        ensures
            conn.wf(),
            conn@.matchers == Map::<usize, Pending<P>>::empty(),
            conn@.next_matcher_id == 0,
            conn@.next_token == 0,
    {
        let conn = Connection2 {
            next_matcher_id: 0,
            matchers: HashMap::new(),
            unmatched_n: 0,
            next_token: 0,
        };
        assert(conn@.matchers =~= Map::<usize, Pending<P>>::empty());
        conn
    }

    /// The number of messages that are still awaited, over all matchers.
    pub fn unmatched_n(&self) -> (n: usize)
        requires
            self.wf(),
        ensures
            n == self@.outstanding(),
    {
        self.unmatched_n
    }

    /// Whether a matcher has this ID.
    pub fn is_registered(&self, id: usize) -> (res: bool)
        ensures
            res == self@.matchers.contains_key(id),
    {
        self.matchers.contains_key(&id)
    }

    /// Whether numbers are left for a request, which takes two tokens and two matchers at most.
    pub fn has_room(&self) -> (res: bool)
        requires
            self.wf(),
        ensures
            res == self@.has_room(),
    {
        self.next_matcher_id <= usize::MAX - 2 && self.unmatched_n <= usize::MAX - 2
            && self.next_token <= usize::MAX - 2
    }

    fn get_matcher_id(&mut self) -> (id: usize)
        requires
            old(self)@.next_matcher_id < usize::MAX,
        ensures
            id == old(self)@.next_matcher_id,
            final(self).matchers == old(self).matchers,
            final(self).unmatched_n == old(self).unmatched_n,
            final(self).next_matcher_id == id + 1,
            final(self).next_token == old(self).next_token,
    {
        let id = self.next_matcher_id;
        self.next_matcher_id += 1;
        id
    }

    /// Registers a matcher for `n` messages, under an ID that was never given out before.
    pub fn register_matcher(&mut self, n: usize, matcher: Matcher) -> (id: usize)
        requires
            old(self).wf(),
            old(self)@.next_matcher_id < usize::MAX,
            old(self)@.outstanding() + n <= usize::MAX,
        ensures
            final(self).wf(),
            id == old(self)@.next_matcher_id,
            final(self)@ == old(self)@.registered(n, matcher),
            final(self)@.outstanding() == old(self)@.outstanding() + n,
    {
        let id = self.get_matcher_id();
        self.matchers.insert(id, (n, matcher, Vec::new()));
        self.unmatched_n += n;
        proof {
            let before = old(self)@;
            assert(self@ =~= before.registered(n, matcher));
            lemma_slots_insert(before.matchers, id, self@.matchers[id], id as nat);
        }
        id
    }

    /// Takes a matcher out of the table, and gives it back with the messages that have come.
    pub fn remove_matcher(&mut self, id: usize) -> (removed: Option<(Matcher, Vec<Message<P>>)>)
        requires
            old(self).wf(),
        ensures
            final(self).wf(),
            final(self)@ == old(self)@.removed(id),
            match removed {
                Some((matcher, messages)) => {
                    &&& old(self)@.matchers.contains_key(id)
                    &&& matcher == old(self)@.matchers[id].matcher
                    &&& messages@ == old(self)@.matchers[id].messages
                    &&& final(self)@.outstanding() == old(self)@.outstanding()
                        - old(self)@.matchers[id].open_slots()
                },
                None => !old(self)@.matchers.contains_key(id),
            },
    {
        let ghost before = self@;
        let taken = self.matchers.remove(&id);
        proof {
            assert(self@.matchers =~= before.matchers.remove(id));
            lemma_slots_remove(before.matchers, id, before.next_matcher_id as nat);
            lemma_slots_cover(before.matchers, id, before.next_matcher_id as nat);
        }
        match taken {
            Some((n, matcher, messages)) => {
                assert(before.matchers.contains_key(id));
                assert(before.matchers[id] == (Pending { n, matcher, messages: messages@ }));
                self.unmatched_n -= n - messages.len();
                Some((matcher, messages))
            },
            None => None,
        }
    }

    /// A registered matcher that awaits `message`, if there is one.
    fn find_matcher(&self, message: &Message<P>) -> (found: Option<usize>)
        ensures
            match found {
                Some(id) => self@.awaits(id, *message),
                None => forall|id: usize| !#[trigger] self@.awaits(id, *message),
            },
    {
        for (id, entry) in iter: self.matchers.iter()
            invariant
                forall|j: int|
                    0 <= j < iter.index() ==> !pending(*(#[trigger] iter.seq()[j]).1).awaits(
                        *message,
                    ),
        {
            let (n, matcher, messages) = entry;
            if messages.len() < *n && matcher.matches(message) {
                return Some(*id);
            }
        }
        None
    }

    /// Hands `message` to one of the matchers that await it, and says which. Where several do,
    /// nothing is said about which of them gets it; where none does, the message is dropped.
    pub fn match_message(&mut self, message: Message<P>) -> (matched: Option<usize>)
        requires
            old(self).wf(),
        ensures
            final(self).wf(),
            match matched {
                Some(id) => {
                    &&& old(self)@.awaits(id, message)
                    &&& final(self)@ == old(self)@.delivered(id, message)
                    &&& final(self)@.outstanding() == old(self)@.outstanding() - 1
                },
                None => {
                    &&& forall|id: usize| !#[trigger] old(self)@.awaits(id, message)
                    &&& final(self)@ == old(self)@
                },
            },
    {
        let ghost before = self@;
        match self.find_matcher(&message) {
            Some(id) => {
                assert(before.matchers.contains_key(id));
                let (n, matcher, mut messages) = self.matchers.remove(&id).unwrap();
                messages.push(message);
                let ghost p = Pending { n, matcher, messages: messages@ };
                self.matchers.insert(id, (n, matcher, messages));
                proof {
                    assert(self@.matchers =~= before.matchers.insert(id, p));
                    lemma_slots_insert(before.matchers, id, p, before.next_matcher_id as nat);
                    lemma_slots_cover(before.matchers, id, before.next_matcher_id as nat);
                }
                self.unmatched_n -= 1;
                Some(id)
            },
            None => None,
        }
    }

    /// Takes in what came while waiting: a message, or nothing before the wait was over.
    pub fn block_on_any_io(&mut self, message: Option<Message<P>>)
        requires
            old(self).wf(),
        ensures
            final(self).wf(),
            match message {
                Some(m) => old(self)@.receives(m, final(self)@),
                None => final(self)@ == old(self)@,
            },
    {
        if let Some(message) = message {
            self.match_message(message);
        }
    }

    /// One turn of waiting for the matcher `id`, `elapsed` after the wait began: once every awaited
    /// message has come, or `timeout` has passed, the matcher is taken out of the table; until
    /// then the wait goes on for what is left of `timeout`.
    pub fn block_on_matcher_remove(&mut self, id: usize, timeout: u128, elapsed: u128) -> (turn:
        Blocked<(Matcher, Vec<Message<P>>)>)
        requires
            old(self).wf(),
            old(self)@.matchers.contains_key(id),
        ensures
            final(self).wf(),
            match turn {
                Blocked::Ready((matcher, messages)) => {
                    &&& old(self)@.matchers[id].is_full() || timeout <= elapsed
                    &&& matcher == old(self)@.matchers[id].matcher
                    &&& messages@ == old(self)@.matchers[id].messages
                    &&& final(self)@ == old(self)@.removed(id)
                },
                Blocked::Wait(left) => {
                    &&& !old(self)@.matchers[id].is_full()
                    &&& elapsed < timeout
                    &&& left == timeout - elapsed
                    &&& final(self)@ == old(self)@
                },
            },
    {
        let full = match self.matchers.get(&id) {
            Some((n, _, messages)) => messages.len() >= *n,
            None => false,
        };
        let remaining = timeout.saturating_sub(elapsed);
        if full || remaining == 0 {
            Blocked::Ready(self.remove_matcher(id).unwrap())
        } else {
            Blocked::Wait(remaining)
        }
    }

    /// One turn of waiting for the first message of the matcher `id`, as
    /// `block_on_matcher_remove` waits for all of them.
    pub fn block_on_once_matcher_remove(&mut self, id: usize, timeout: u128, elapsed: u128) -> (turn:
        Blocked<(Matcher, Option<Message<P>>)>)
        requires
            old(self).wf(),
            old(self)@.matchers.contains_key(id),
        ensures
            final(self).wf(),
            match turn {
                Blocked::Ready((matcher, message)) => {
                    &&& old(self)@.matchers[id].is_full() || timeout <= elapsed
                    &&& matcher == old(self)@.matchers[id].matcher
                    &&& message == old(self)@.matchers[id].first_message()
                    &&& final(self)@ == old(self)@.removed(id)
                },
                Blocked::Wait(left) => {
                    &&& !old(self)@.matchers[id].is_full()
                    &&& elapsed < timeout
                    &&& left == timeout - elapsed
                    &&& final(self)@ == old(self)@
                },
            },
    {
        match self.block_on_matcher_remove(id, timeout, elapsed) {
            Blocked::Ready((matcher, mut messages)) => {
                let first = if messages.len() == 0 {
                    None
                } else {
                    Some(messages.remove(0))
                };
                Blocked::Ready((matcher, first))
            },
            Blocked::Wait(left) => Blocked::Wait(left),
        }
    }

    /// Makes the matcher `id` ask for `path` from now on.
    pub fn redirect_matcher(&mut self, id: usize, path: String)
        requires
            old(self).wf(),
            old(self)@.matchers.contains_key(id),
        ensures
            final(self).wf(),
            final(self)@ == old(self)@.redirected(id, path),
            final(self)@.outstanding() == old(self)@.outstanding(),
    {
        let ghost before = self@;
        let (n, matcher, messages) = self.matchers.remove(&id).unwrap();
        let matcher = matcher.with_path(path);
        let ghost p = Pending { n, matcher, messages: messages@ };
        self.matchers.insert(id, (n, matcher, messages));
        proof {
            assert(self@.matchers =~= before.matchers.insert(id, p));
            lemma_slots_insert(before.matchers, id, p, before.next_matcher_id as nat);
        }
    }

    /// A number that was never given out as a token before.
    pub fn get_token(&mut self) -> (token: usize)
        requires
            old(self).wf(),
            old(self)@.next_token < usize::MAX,
        ensures
            final(self).wf(),
            token == old(self)@.next_token,
            final(self)@ == (Table { next_token: (token + 1) as usize, ..old(self)@ }),
    {
        let token = self.next_token;
        self.next_token += 1;
        token
    }
}

/// Giving a matcher below `bound` new contents changes the count of awaited messages by what it
/// now awaits and no longer awaits; one from `bound` on does not count.
proof fn lemma_slots_insert<P>(
    matchers: Map<usize, Pending<P>>,
    id: usize,
    p: Pending<P>,
    bound: nat,
)
    requires
        bound <= usize::MAX,
    ensures
        slots_below(matchers.insert(id, p), bound) == slots_below(matchers, bound) + if id < bound {
            p.open_slots() - if matchers.contains_key(id) {
                matchers[id].open_slots()
            } else {
                0
            }
        } else {
            0
        },
    decreases bound,
{
    if bound > 0 {
        lemma_slots_insert(matchers, id, p, (bound - 1) as nat);
    }
}

/// Taking a matcher below `bound` out lowers the count by what it still awaits.
proof fn lemma_slots_remove<P>(matchers: Map<usize, Pending<P>>, id: usize, bound: nat)
    requires
        bound <= usize::MAX,
    ensures
        slots_below(matchers.remove(id), bound) == slots_below(matchers, bound) - if id < bound
            && matchers.contains_key(id) {
            matchers[id].open_slots()
        } else {
            0
        },
    decreases bound,
{
    if bound > 0 {
        lemma_slots_remove(matchers, id, (bound - 1) as nat);
    }
}

/// The count covers what each single matcher awaits.
proof fn lemma_slots_cover<P>(matchers: Map<usize, Pending<P>>, id: usize, bound: nat)
    requires
        bound <= usize::MAX,
        forall|i: usize| #[trigger] matchers.contains_key(i) ==> matchers[i].open_slots() >= 0,
    ensures
        slots_below(matchers, bound) >= 0,
        id < bound && matchers.contains_key(id) ==> slots_below(matchers, bound)
            >= matchers[id].open_slots(),
    decreases bound,
{
    if bound > 0 {
        lemma_slots_cover(matchers, id, (bound - 1) as nat);
    }
}

} // verus!
