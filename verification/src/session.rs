//! Setting up a screen cast session: the requests that are made for it, in order.
use crate::calls::{
    new_create_session_call, new_start_call, remote_desktop_select_devices,
    screen_cast_select_sources, MethodCall, MethodCallView, Portal,
};
use crate::dbus_util::{Blocked, Connection2, Table};
use crate::dyn_map::DynMap;
use crate::message::Arg;
use crate::object_path::{new_long_path, new_path, MAX_PATH_BYTES};
use crate::portal::{PortalError, PortalRequest};
use crate::text::to_decimal;
use vstd::prelude::*;

verus! {

/// What is missing from the results of a request.
#[derive(Debug)]
pub enum ResultsError {
    NoSessionHandle,
    /// The session handle is not an object path.
    BadSessionHandle(String),
    NoStream,
    NoNodeId,
    NoProperties,
}

impl ResultsError {
    /// What is told to the user.
    pub open spec fn told(self) -> Seq<char> {
        match self {
            ResultsError::NoSessionHandle => "no session handle in response"@,
            ResultsError::BadSessionHandle(problem) => problem@,
            ResultsError::NoStream => "no stream in response"@,
            ResultsError::NoNodeId => "no ID in stream tuple"@,
            ResultsError::NoProperties => "no properties in stream tuple"@,
        }
    }

    /// What is told to the user.
    pub fn text(&self) -> (text: String)
        ensures
            text@ == self.told(),
    {
        match self {
            ResultsError::NoSessionHandle => "no session handle in response".to_owned(),
            ResultsError::BadSessionHandle(problem) => problem.clone(),
            ResultsError::NoStream => "no stream in response".to_owned(),
            ResultsError::NoNodeId => "no ID in stream tuple".to_owned(),
            ResultsError::NoProperties => "no properties in stream tuple".to_owned(),
        }
    }
}

/// The first item of a container, if it is one and has one.
pub open spec fn first_item(arg: Arg) -> Option<Arg> {
    match arg.items {
        Some(items) => if items@.len() > 0 {
            Some(items@[0])
        } else {
            None
        },
        None => None,
    }
}

fn get_first_item(arg: &Arg) -> (item: Option<&Arg>)
    ensures
        match item {
            Some(a) => first_item(*arg) == Some(*a),
            None => first_item(*arg) is None,
        },
{
    match &arg.items {
        Some(items) => if items.len() > 0 {
            Some(&items[0])
        } else {
            None
        },
        None => None,
    }
}

/// Keys and values stand in turn: every key is text, and every value is a container that holds
/// something.
pub open spec fn is_interleaved(items: Seq<Arg>) -> bool {
    &&& items.len() % 2 == 0
    &&& forall|i: int|
        #![trigger items[2 * i]]
        0 <= 2 * i < items.len() ==> items[2 * i].text is Some && first_item(
            items[2 * i + 1],
        ) is Some
}

/// The map from each key to the first item of the value after it. The last of several values for
/// a key counts.
pub open spec fn interleaved_map(items: Seq<Arg>) -> Map<Seq<char>, Arg>
    decreases items.len(),
{
    if items.len() < 2 {
        Map::empty()
    } else {
        interleaved_map(items.take(items.len() - 2)).insert(
            items[items.len() - 2].text->0@,
            first_item(items[items.len() - 1])->0,
        )
    }
}

/// Reads keys and values that stand in turn as a dictionary. Each value is taken out of its variant.
pub fn array_to_dynmap<'a>(items: &'a Vec<Arg>) -> (map: Option<DynMap<&'a Arg>>)
    ensures
        map is Some <==> is_interleaved(items@),
        map is Some ==> map->0@ == interleaved_map(items@).map_values(|arg: Arg| &arg),
{
    let mut map: DynMap<&'a Arg> = DynMap::new();
    let mut i: usize = 0;
    proof {
        assert(map@ =~= interleaved_map(items@.take(0)).map_values(|arg: Arg| &arg));
    }
    while i < items.len()
        invariant
            i <= items@.len(),
            i % 2 == 0,
            is_interleaved(items@.take(i as int)),
            map@ == interleaved_map(items@.take(i as int)).map_values(|arg: Arg| &arg),
        decreases items@.len() - i,
    {
        if items.len() - i < 2 {
            return None;
        }
        let value = match get_first_item(&items[i + 1]) {
            Some(value) => value,
            None => {
                assert(items@[2 * (i as int / 2)] == items@[i as int]);
                return None;
            },
        };
        let key = match &items[i].text {
            Some(key) => key.clone(),
            None => {
                assert(items@[2 * (i as int / 2)] == items@[i as int]);
                return None;
            },
        };
        let ghost before = items@.take(i as int);
        let ghost after = items@.take(i + 2);
        let ghost k = key@;
        map = map.with_owned(key, value);
        proof {
            assert(after.take(i as int) =~= before);
            assert(map@ =~= interleaved_map(after).map_values(|arg: Arg| &arg));
            assert forall|j: int|
                #![trigger after[2 * j]]
                0 <= 2 * j < after.len() implies after[2 * j].text is Some && first_item(
                after[2 * j + 1],
            ) is Some by {
                if 2 * j < i {
                    assert(before[2 * j] == after[2 * j]);
                    assert(before[2 * j + 1] == after[2 * j + 1]);
                }
            }
        }
        i += 2;
    }
    assert(items@.take(i as int) =~= items@);
    Some(map)
}

/// The first stream that the results of starting a session tell of: the variant is unpacked, and
/// the first of the streams in it is taken.
pub open spec fn first_stream(results: Map<Seq<char>, Arg>) -> Option<Seq<Arg>> {
    if results.contains_key("streams"@) {
        match first_item(results["streams"@]) {
            Some(streams) => match first_item(streams) {
                Some(stream) => match stream.items {
                    Some(fields) => Some(fields@),
                    None => None,
                },
                None => None,
            },
            None => None,
        }
    } else {
        None
    }
}

/// The number that a stream begins with.
pub open spec fn stream_number(fields: Seq<Arg>) -> Option<u64> {
    if fields.len() > 0 {
        fields[0].number
    } else {
        None
    }
}

/// A stream has properties: a dictionary after the number.
pub open spec fn has_properties(fields: Seq<Arg>) -> bool {
    &&& fields.len() > 1
    &&& fields[1].items is Some
    &&& is_interleaved(fields[1].items->0@)
}

/// The node of the first stream, which must have properties. Of its number, the lower 32 bits count.
pub open spec fn stream_node(results: Map<Seq<char>, Arg>) -> Result<u32, ResultsError> {
    match first_stream(results) {
        None => Err(ResultsError::NoStream),
        Some(fields) => match stream_number(fields) {
            None => Err(ResultsError::NoNodeId),
            Some(number) => if has_properties(fields) {
                Ok((number % 0x1_0000_0000) as u32)
            } else {
                Err(ResultsError::NoProperties)
            },
        },
    }
}

/// The node of the first stream that the results of starting a session tell of.
pub fn extract_pipewire_stream_node(results: &DynMap<Arg>) -> (node_id: Result<u32, ResultsError>)
    ensures
        node_id == stream_node(results@),
{
    let streams = match results.get("streams") {
        Some(variant) => get_first_item(variant),
        None => None,
    };
    let stream = match streams {
        Some(streams) => get_first_item(streams),
        None => None,
    };
    let fields = match stream {
        Some(stream) => match &stream.items {
            Some(fields) => fields,
            None => {
                return Err(ResultsError::NoStream);
            },
        },
        None => {
            return Err(ResultsError::NoStream);
        },
    };
    let number = if fields.len() > 0 {
        fields[0].number
    } else {
        None
    };
    let number = match number {
        Some(number) => number,
        None => {
            return Err(ResultsError::NoNodeId);
        },
    };
    let properties = if fields.len() > 1 {
        match &fields[1].items {
            Some(items) => array_to_dynmap(items),
            None => None,
        }
    } else {
        None
    };
    match properties {
        Some(_) => {
            assert(number as u32 == (number % 0x1_0000_0000) as u32) by (bit_vector);
            Ok(number as u32)
        },
        None => Err(ResultsError::NoProperties),
    }
}

/// The text of the session handle, if the results of making a session have one.
pub open spec fn session_handle_text(results: Map<Seq<char>, Arg>) -> Option<Seq<char>> {
    if results.contains_key("session_handle"@) {
        match results["session_handle"@].text {
            Some(text) => Some(text@),
            None => None,
        }
    } else {
        None
    }
}

/// A text that can be a session handle.
pub open spec fn is_session_handle(text: Seq<char>) -> bool {
    crate::object_path::is_object_path(crate::object_path::until_nul(text))
}

/// `problem` is what is said of a text that cannot be a session handle. Where memory runs short,
/// this may be said instead of what is wrong with the text.
pub open spec fn is_handle_problem(text: Seq<char>, problem: Seq<char>) -> bool {
    ||| problem == crate::object_path::refusal(crate::object_path::until_nul(text))
    ||| problem == "Not enough memory"@
}

/// `handle` is what is found when the results of making a session are searched for a handle.
pub open spec fn finds_session_handle(
    results: Map<Seq<char>, Arg>,
    handle: Result<String, ResultsError>,
) -> bool {
    match session_handle_text(results) {
        None => handle == Err::<String, ResultsError>(ResultsError::NoSessionHandle),
        Some(text) => if is_session_handle(text) {
            handle is Ok && handle->Ok_0@ == text
        } else {
            &&& handle is Err
            &&& handle->Err_0 is BadSessionHandle
            &&& is_handle_problem(text, handle->Err_0->BadSessionHandle_0@)
        },
    }
}

/// The handle of the session that was made, which was checked for being an object path: the path that
/// it is, or, as it stands, what is wrong with it.
pub fn checked_session_handle(checked: Result<String, String>) -> (handle: Result<
    String,
    ResultsError,
>)
    ensures
        handle == match checked {
            Ok(path) => Ok::<String, ResultsError>(path),
            Err(problem) => Err(ResultsError::BadSessionHandle(problem)),
        },
{
    match checked {
        Ok(path) => Ok(path),
        Err(problem) => Err(ResultsError::BadSessionHandle(problem)),
    }
}

/// The handle of the session that was made.
pub fn extract_session_handle(results: &DynMap<Arg>) -> (handle: Result<String, ResultsError>)
    ensures
        finds_session_handle(results@, handle),
{
    let text = match results.get("session_handle") {
        Some(arg) => match &arg.text {
            Some(text) => text.as_str(),
            None => {
                return Err(ResultsError::NoSessionHandle);
            },
        },
        None => {
            return Err(ResultsError::NoSessionHandle);
        },
    };
    let checked = if text.as_bytes().len() <= MAX_PATH_BYTES {
        new_path(text)
    } else {
        new_long_path(text)
    };
    checked_session_handle(checked)
}

/// The request that a session set-up has come to.
#[derive(Debug, Clone, Copy, PartialEq, Eq, Structural)]
pub enum Phase {
    CreateSession,
    SelectDevices,
    SelectSources,
    Start,
}

/// Nanoseconds in a second.
pub const SECOND: u128 = 1_000_000_000;

/// How long a request may take. The user is asked in the last one.
pub open spec fn timeout_of(phase: Phase) -> u128 {
    match phase {
        Phase::Start => (300 * SECOND) as u128,
        _ => SECOND,
    }
}

/// The phase that follows, if one does. Devices are selected only where some are asked for.
pub open spec fn next_phase(phase: Phase, device_types: Option<u32>) -> Option<Phase> {
    match phase {
        Phase::CreateSession => if device_types is Some {
            Some(Phase::SelectDevices)
        } else {
            Some(Phase::SelectSources)
        },
        Phase::SelectDevices => Some(Phase::SelectSources),
        Phase::SelectSources => Some(Phase::Start),
        Phase::Start => None,
    }
}

/// The part of the portal that a session is made with and started with: the remote desktop, where
/// devices are asked for.
pub open spec fn portal_of(device_types: Option<u32>) -> Portal {
    match device_types {
        Some(_) => Portal::RemoteDesktop,
        None => Portal::ScreenCast,
    }
}

/// Why a session could not be set up.
#[derive(Debug)]
pub enum SetupError<P> {
    Request(PortalError<P>),
    Results(ResultsError),
}

impl<P> SetupError<P> {
    /// What is told to the user. An error reply is shown as `shown_reply`.
    pub open spec fn told(self, shown_reply: Seq<char>) -> Seq<char> {
        match self {
            SetupError::Request(problem) => problem.told(shown_reply),
            SetupError::Results(problem) => problem.told(),
        }
    }

    /// What is told to the user. An error reply is shown as `shown_reply`.
    pub fn text(&self, shown_reply: &str) -> (text: String)
        ensures
            text@ == self.told(shown_reply@),
    {
        match self {
            SetupError::Request(problem) => problem.text(shown_reply),
            SetupError::Results(problem) => problem.text(),
        }
    }
}

/// What to do about a session set-up.
#[derive(Debug)]
pub enum SetupTurn<P> {
    /// Wait for a message, for at most so many nanoseconds.
    Wait(u128),
    /// Make the call of the phase that was entered.
    Call,
    /// The session is started, and shows on this node.
    Done { session_handle: String, node_id: u32 },
    Failed(SetupError<P>),
}

/// The set-up of a screen cast session, as far as it has come.
#[derive(Debug)]
pub struct SessionSetup {
    pub source_types: u32,
    pub device_types: Option<u32>,
    /// The name of the connection.
    pub unique_name: String,
    pub phase: Phase,
    /// The handle of the session, once it is made.
    pub session_handle: String,
    /// The token of the request that is made in this phase.
    pub token: usize,
    /// The request of this phase, once its call was sent.
    pub request: Option<PortalRequest>,
}

impl SessionSetup {
    /// The name of the connection has a character to leave off in paths, devices are selected only
    /// where some are asked for, and the session has a handle once it is made.
    pub open spec fn wf(self) -> bool {
        &&& self.unique_name@.len() > 0
        &&& (self.unique_name@[0] as u32) < 128
        &&& self.phase == Phase::SelectDevices ==> self.device_types is Some
        &&& self.phase != Phase::CreateSession ==> is_session_handle(self.session_handle@)
    }

    /// The call of this phase was sent, and its matchers are registered.
    pub open spec fn is_waiting_in<P>(self, table: Table<P>) -> bool {
        self.request is Some && self.request->0.is_waiting_in(table)
    }

    /// Whether the call of this phase was sent, and its matchers are registered.
    pub fn is_waiting<P>(&self, conn: &Connection2<P>) -> (res: bool)
        ensures
            res == self.is_waiting_in(conn@),
    {
        match self.request {
            Some(request) => request.is_waiting(conn),
            None => false,
        }
    }

    /// The call of this phase, with the tokens that it is given.
    pub open spec fn phase_call(self, token: usize, session_token: usize) -> MethodCallView {
        match self.phase {
            Phase::CreateSession => crate::calls::create_session_call(
                portal_of(self.device_types),
                token,
                session_token,
            ),
            Phase::SelectDevices => crate::calls::select_call(
                Portal::RemoteDesktop,
                "SelectDevices"@,
                self.session_handle@,
                token,
                self.device_types->0,
            ),
            Phase::SelectSources => crate::calls::select_call(
                Portal::ScreenCast,
                "SelectSources"@,
                self.session_handle@,
                token,
                self.source_types,
            ),
            Phase::Start => crate::calls::start_call(
                portal_of(self.device_types),
                self.session_handle@,
                token,
            ),
        }
    }

    /// A set-up that has yet to make its first call.
    pub fn new(source_types: u32, device_types: Option<u32>, unique_name: String) -> (setup: Self)
        requires
            unique_name@.len() > 0,
            (unique_name@[0] as u32) < 128,
        ensures
            setup.wf(),
            setup.source_types == source_types,
            setup.device_types == device_types,
            setup.unique_name == unique_name,
            setup.phase == Phase::CreateSession,
            setup.session_handle@ == Seq::<char>::empty(),
            setup.token == 0,
            setup.request is None,
    {
        SessionSetup {
            source_types,
            device_types,
            unique_name,
            phase: Phase::CreateSession,
            session_handle: String::new(),
            token: 0,
            request: None,
        }
    }

    /// The call of this phase, with tokens of its own.
    pub fn next_call<P>(&mut self, conn: &mut Connection2<P>) -> (call: MethodCall)
        requires
            old(self).wf(),
            old(conn).wf(),
            old(conn)@.next_token + if old(self).phase == Phase::CreateSession {
                2int
            } else {
                1int
            } <= usize::MAX,
        ensures
            final(self).wf(),
            final(conn).wf(),
            call@ == old(self).phase_call(
                old(conn)@.next_token,
                (old(conn)@.next_token + 1) as usize,
            ),
            *final(self) == (SessionSetup { token: old(conn)@.next_token, ..*old(self) }),
            final(conn)@ == (Table {
                next_token: (old(conn)@.next_token + if old(self).phase == Phase::CreateSession {
                    2int
                } else {
                    1int
                }) as usize,
                ..old(conn)@
            }),
    {
        let portal = match self.device_types {
            Some(_) => Portal::RemoteDesktop,
            None => Portal::ScreenCast,
        };
        let token = conn.get_token();
        self.token = token;
        match self.phase {
            Phase::CreateSession => {
                let session_token = conn.get_token();
                new_create_session_call(portal, token, session_token)
            },
            Phase::SelectDevices => remote_desktop_select_devices(
                self.session_handle.clone(),
                token,
                self.device_types.unwrap(),
            ),
            Phase::SelectSources => screen_cast_select_sources(
                self.session_handle.clone(),
                token,
                self.source_types,
            ),
            Phase::Start => new_start_call(portal, self.session_handle.clone(), token),
        }
    }

    /// Begins to wait, from `now` on, for what becomes of the call of this phase, which was sent
    /// with this serial.
    pub fn sent<P>(&mut self, conn: &mut Connection2<P>, serial: u32, now: u128)
        requires
            old(self).wf(),
            old(conn).wf(),
            old(conn)@.next_matcher_id + 2 <= usize::MAX,
            old(conn)@.outstanding() + 2 <= usize::MAX,
        ensures
            final(self).wf(),
            final(conn).wf(),
            final(self).is_waiting_in(final(conn)@),
            crate::portal::request_begins(
                old(conn)@,
                old(self).unique_name@,
                serial,
                crate::text::decimal(old(self).token as nat),
                timeout_of(old(self).phase),
                now,
                final(self).request->0,
                final(conn)@,
            ),
            *final(self) == (SessionSetup { request: final(self).request, ..*old(self) }),
    {
        let timeout: u128 = match self.phase {
            Phase::Start => 300 * SECOND,
            _ => SECOND,
        };
        let token = to_decimal(self.token);
        let request = PortalRequest::new(
            conn,
            self.unique_name.as_str(),
            serial,
            token.as_str(),
            timeout,
            now,
        );
        self.request = Some(request);
    }

    /// `after` is this set-up, and `turn` what to do, when the request of this phase is over and had
    /// these results.
    pub open spec fn advances<P>(
        self,
        results: Map<Seq<char>, Arg>,
        after: SessionSetup,
        turn: SetupTurn<P>,
    ) -> bool {
        let next = next_phase(self.phase, self.device_types);
        match self.phase {
            Phase::CreateSession => match session_handle_text(results) {
                Some(text) => if is_session_handle(text) {
                    &&& turn == SetupTurn::<P>::Call
                    &&& after.session_handle@ == text
                    &&& after == (SessionSetup {
                        phase: next->0,
                        request: None,
                        session_handle: after.session_handle,
                        ..self
                    })
                } else {
                    &&& turn is Failed
                    &&& turn->Failed_0 is Results
                    &&& turn->Failed_0->Results_0 is BadSessionHandle
                    &&& is_handle_problem(
                        text,
                        turn->Failed_0->Results_0->BadSessionHandle_0@,
                    )
                    &&& after == (SessionSetup { request: None, ..self })
                },
                None => {
                    &&& turn == SetupTurn::<P>::Failed(
                        SetupError::Results(ResultsError::NoSessionHandle),
                    )
                    &&& after == (SessionSetup { request: None, ..self })
                },
            },
            Phase::SelectDevices | Phase::SelectSources => {
                &&& turn == SetupTurn::<P>::Call
                &&& after == (SessionSetup { phase: next->0, request: None, ..self })
            },
            Phase::Start => {
                &&& after == (SessionSetup { request: None, ..self })
                &&& match stream_node(results) {
                    Ok(node_id) => turn == SetupTurn::<P>::Done {
                        session_handle: self.session_handle,
                        node_id,
                    },
                    Err(problem) => turn == SetupTurn::<P>::Failed(SetupError::Results(problem)),
                }
            },
        }
    }

    /// Goes on to the next phase, now that the request of this one is over and had these results.
    pub fn advance<P>(&mut self, results: DynMap<Arg>) -> (turn: SetupTurn<P>)
        requires
            old(self).wf(),
        ensures
            final(self).wf(),
            old(self).advances(results@, *final(self), turn),
    {
        self.request = None;
        match self.phase {
            Phase::CreateSession => match extract_session_handle(&results) {
                Ok(handle) => {
                    self.session_handle = handle;
                    self.phase = if self.device_types.is_some() {
                        Phase::SelectDevices
                    } else {
                        Phase::SelectSources
                    };
                    SetupTurn::Call
                },
                Err(problem) => SetupTurn::Failed(SetupError::Results(problem)),
            },
            Phase::SelectDevices => {
                self.phase = Phase::SelectSources;
                SetupTurn::Call
            },
            Phase::SelectSources => {
                self.phase = Phase::Start;
                SetupTurn::Call
            },
            Phase::Start => match extract_pipewire_stream_node(&results) {
                Ok(node_id) => SetupTurn::Done {
                    session_handle: self.session_handle.clone(),
                    node_id,
                },
                Err(problem) => SetupTurn::Failed(SetupError::Results(problem)),
            },
        }
    }

    /// One turn of waiting for what becomes of the call of this phase.
    pub fn poll<P>(&mut self, conn: &mut Connection2<P>, now: u128) -> (turn: SetupTurn<P>)
        requires
            old(self).wf(),
            old(conn).wf(),
            old(self).is_waiting_in(old(conn)@),
        ensures
            final(self).wf(),
            final(conn).wf(),
            ({
                let (request, table, step) = crate::portal::request_step(
                    old(self).request->0,
                    old(conn)@,
                    now,
                );
                &&& final(conn)@ == table
                &&& match step {
                    Blocked::Wait(left) => {
                        &&& turn == SetupTurn::<P>::Wait(left)
                        &&& *final(self) == (SessionSetup { request: Some(request), ..*old(self) })
                        &&& final(self).is_waiting_in(final(conn)@)
                    },
                    Blocked::Ready(Err(problem)) => {
                        &&& turn == SetupTurn::<P>::Failed(SetupError::Request(problem))
                        &&& *final(self) == (SessionSetup { request: None, ..*old(self) })
                    },
                    Blocked::Ready(Ok(results)) => old(self).advances(
                        results@,
                        *final(self),
                        turn,
                    ),
                }
            }),
    {
        let mut request = self.request.unwrap();
        match request.get_portal_response(conn, now) {
            Blocked::Wait(left) => {
                self.request = Some(request);
                SetupTurn::Wait(left)
            },
            Blocked::Ready(Err(problem)) => {
                self.request = None;
                SetupTurn::Failed(SetupError::Request(problem))
            },
            Blocked::Ready(Ok(results)) => self.advance(results),
        }
    }
}

} // verus!
