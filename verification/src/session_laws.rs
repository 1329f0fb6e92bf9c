//! What is found in the results of the requests that a session is set up with.
use crate::dbus_util::Table;
use crate::message::Arg;
use crate::object_path::{is_object_path, refusal, until_nul};
use crate::portal::PortalError;
use crate::session::{
    finds_session_handle, interleaved_map, is_interleaved, stream_node, timeout_of, Phase,
    ResultsError, SessionSetup, SetupError, SetupTurn, SECOND,
};
use vstd::prelude::*;

verus! {

/// Items make up a dictionary exactly if there is an even number of them, those at even places are
/// text, and those at odd places are containers that hold something. How many there are does not
/// matter.
pub proof fn a_dictionary_may_have_any_number_of_entries(items: Seq<Arg>)
    ensures
        is_interleaved(items) <==> {
            &&& items.len() % 2 == 0
            &&& forall|i: int|
                #![trigger items[i]]
                0 <= i < items.len() && i % 2 == 0 ==> items[i].text is Some
            &&& forall|i: int|
                #![trigger items[i]]
                0 <= i < items.len() && i % 2 == 1 ==> items[i].items is Some
                    && items[i].items->0@.len() > 0
        },
{
    if is_interleaved(items) {
        assert forall|i: int| #![trigger items[i]] 0 <= i < items.len() && i % 2 == 0 implies items[i].text is Some by {
            assert(items[2 * (i / 2)] == items[i]);
        }
        assert forall|i: int| #![trigger items[i]] 0 <= i < items.len() && i % 2 == 1 implies items[i].items is Some
            && items[i].items->0@.len() > 0 by {
            let key = items[2 * (i / 2)];
            assert(2 * (i / 2) + 1 == i);
        }
    }
    if items.len() % 2 == 0 && !is_interleaved(items) {
        let i = choose|i: int|
            #![trigger items[2 * i]]
            0 <= 2 * i < items.len() && !(items[2 * i].text is Some && crate::session::first_item(
                items[2 * i + 1],
            ) is Some);
        let key = items[2 * i];
        let value = items[2 * i + 1];
        assert((2 * i) % 2 == 0 && (2 * i + 1) % 2 == 1);
    }
}

/// Each key of a dictionary is mapped to what the last container that follows it holds first.
pub proof fn the_last_value_of_a_key_counts(items: Seq<Arg>, i: int)
    requires
        is_interleaved(items),
        0 <= 2 * i < items.len(),
        forall|j: int|
            #![trigger items[2 * j]]
            i < j && 2 * j < items.len() ==> items[2 * j].text->0@ != items[2 * i].text->0@,
    ensures
        interleaved_map(items).contains_key(items[2 * i].text->0@),
        interleaved_map(items)[items[2 * i].text->0@] == items[2 * i + 1].items->0@[0],
    decreases items.len(),
{
    a_dictionary_may_have_any_number_of_entries(items);
    let n = items.len() as int;
    let rest = items.take(n - 2);
    assert(items[2 * i + 1].items is Some && items[2 * i + 1].items->0@.len() > 0) by {
        assert((2 * i + 1) % 2 == 1);
    }
    if 2 * i < n - 2 {
        lemma_shorter_dictionary(items);
        assert(items[2 * ((n - 2) / 2)].text->0@ != items[2 * i].text->0@);
        assert(2 * ((n - 2) / 2) == n - 2);
        assert forall|j: int|
            #![trigger rest[2 * j]]
            i < j && 2 * j < rest.len() implies rest[2 * j].text->0@ != rest[2 * i].text->0@ by {
            assert(rest[2 * j] == items[2 * j]);
        }
        assert(rest[2 * i] == items[2 * i]);
        assert(rest[2 * i + 1] == items[2 * i + 1]);
        the_last_value_of_a_key_counts(rest, i);
    } else {
        assert(2 * i == n - 2);
    }
}

/// A dictionary has no keys but those that its items name.
pub proof fn a_dictionary_has_no_other_keys(items: Seq<Arg>, key: Seq<char>)
    requires
        is_interleaved(items),
        forall|i: int|
            #![trigger items[2 * i]]
            0 <= 2 * i < items.len() ==> items[2 * i].text->0@ != key,
    ensures
        !interleaved_map(items).contains_key(key),
    decreases items.len(),
{
    let n = items.len() as int;
    if n >= 2 {
        let rest = items.take(n - 2);
        lemma_shorter_dictionary(items);
        assert(2 * ((n - 2) / 2) == n - 2);
        assert(items[2 * ((n - 2) / 2)].text->0@ != key);
        assert forall|i: int| #![trigger rest[2 * i]] 0 <= 2 * i < rest.len() implies rest[2 * i].text->0@
            != key by {
            assert(rest[2 * i] == items[2 * i]);
        }
        a_dictionary_has_no_other_keys(rest, key);
    }
}

/// A dictionary without its last entry is one.
proof fn lemma_shorter_dictionary(items: Seq<Arg>)
    requires
        is_interleaved(items),
        items.len() >= 2,
    ensures
        is_interleaved(items.take(items.len() - 2)),
{
    let rest = items.take(items.len() - 2);
    a_dictionary_may_have_any_number_of_entries(items);
    assert forall|i: int| 0 <= i < rest.len() implies rest[i] == items[i] by {}
    a_dictionary_may_have_any_number_of_entries(rest);
}

/// What a container holds; nothing, where the argument is none.
pub open spec fn held(arg: Arg) -> Seq<Arg> {
    match arg.items {
        Some(items) => items@,
        None => Seq::empty(),
    }
}

/// The results tell of a stream: what they have under the name is a container, in which the first
/// item is a list, of which the first item is a container.
pub open spec fn tells_of_stream(results: Map<Seq<char>, Arg>) -> bool {
    &&& results.contains_key("streams"@)
    &&& held(results["streams"@]).len() > 0
    &&& held(held(results["streams"@])[0]).len() > 0
    &&& held(held(results["streams"@])[0])[0].items is Some
}

/// The fields of that stream.
pub open spec fn fields_of_stream(results: Map<Seq<char>, Arg>) -> Seq<Arg> {
    held(held(held(results["streams"@])[0])[0])
}

/// A stream that begins with a number and a dictionary, which may have any number of entries, has the
/// lower 32 bits of the number as its node, whatever other streams and fields there are.
pub proof fn the_first_stream_has_its_number_as_node(
    results: Map<Seq<char>, Arg>,
    number: u64,
    properties: Vec<Arg>,
)
    requires
        tells_of_stream(results),
        fields_of_stream(results).len() >= 2,
        fields_of_stream(results)[0].number == Some(number),
        fields_of_stream(results)[1].items == Some(properties),
        properties@.len() % 2 == 0,
        forall|i: int|
            #![trigger properties@[i]]
            0 <= i < properties@.len() ==> if i % 2 == 0 {
                properties@[i].text is Some
            } else {
                properties@[i].items is Some && properties@[i].items->0@.len() > 0
            },
    ensures
        stream_node(results) is Ok,
        stream_node(results)->Ok_0 == number % 0x1_0000_0000,
{
    a_dictionary_may_have_any_number_of_entries(properties@);
}

/// Without a stream there is no node, nor without a number in it, nor without a dictionary after the
/// number; each has its own error, and the first that holds is given.
pub proof fn a_node_is_missing_for_one_of_three_reasons(results: Map<Seq<char>, Arg>)
    ensures
        ({
            let node = stream_node(results);
            let fields = fields_of_stream(results);
            let numbered = fields.len() > 0 && fields[0].number is Some;
            let described = fields.len() > 1 && fields[1].items is Some && is_interleaved(
                fields[1].items->0@,
            );
            &&& node == Err::<u32, ResultsError>(ResultsError::NoStream) <==> !tells_of_stream(
                results,
            )
            &&& node == Err::<u32, ResultsError>(ResultsError::NoNodeId) <==> tells_of_stream(results)
                && !numbered
            &&& node == Err::<u32, ResultsError>(ResultsError::NoProperties) <==> tells_of_stream(
                results,
            ) && numbered && !described
            &&& node is Ok <==> tells_of_stream(results) && numbered && described
            &&& node is Ok ==> node->Ok_0 == fields[0].number->0 % 0x1_0000_0000
        }),
{
}

/// A session has the handle that the results give as text, unchanged, where that is an object path up
/// to its first NUL. Where they give no text the handle is missing, and where they give any other it
/// is refused with a quotation of it, unless memory runs short.
pub proof fn a_handle_is_the_text_that_the_results_give(
    results: Map<Seq<char>, Arg>,
    handle: Result<String, ResultsError>,
)
    requires
        finds_session_handle(results, handle),
    ensures
        ({
            let given = results.contains_key("session_handle"@)
                && results["session_handle"@].text is Some;
            let text = results["session_handle"@].text->0@;
            &&& !given <==> handle == Err::<String, ResultsError>(ResultsError::NoSessionHandle)
            &&& handle is Ok <==> given && is_object_path(until_nul(text))
            &&& handle matches Ok(h) ==> h@ == text
            &&& given && !is_object_path(until_nul(text)) ==> {
                &&& handle matches Err(ResultsError::BadSessionHandle(problem))
                &&& problem@ == refusal(until_nul(text)) || problem@ == "Not enough memory"@
            }
        }),
{
}

/// What was asked for when a set-up was made stays as it is, and so does the name of the connection;
/// the request of the phase is over.
pub proof fn a_set_up_keeps_what_it_was_given<P>(
    setup: SessionSetup,
    results: Map<Seq<char>, Arg>,
    after: SessionSetup,
    turn: SetupTurn<P>,
)
    requires
        setup.advances(results, after, turn),
    ensures
        after.source_types == setup.source_types,
        after.device_types == setup.device_types,
        after.unique_name == setup.unique_name,
        after.token == setup.token,
        after.request is None,
{
}

/// Where the results of making a session give a handle, devices are selected next if some are asked
/// for, and sources otherwise, for the session with that handle. Otherwise the set-up fails where it
/// is.
pub proof fn a_made_session_goes_on_with_its_handle<P>(
    setup: SessionSetup,
    results: Map<Seq<char>, Arg>,
    after: SessionSetup,
    turn: SetupTurn<P>,
)
    requires
        setup.phase == Phase::CreateSession,
        setup.advances(results, after, turn),
    ensures
        ({
            let given = results.contains_key("session_handle"@)
                && results["session_handle"@].text is Some;
            let text = results["session_handle"@].text->0@;
            &&& given && is_object_path(until_nul(text)) ==> {
                &&& turn is Call
                &&& after.session_handle@ == text
                &&& setup.device_types is Some ==> after.phase == Phase::SelectDevices
                &&& setup.device_types is None ==> after.phase == Phase::SelectSources
            }
            &&& given && !is_object_path(until_nul(text)) ==> {
                &&& turn matches SetupTurn::Failed(
                    SetupError::Results(ResultsError::BadSessionHandle(problem)),
                )
                &&& problem@ == refusal(until_nul(text)) || problem@ == "Not enough memory"@
                &&& after.phase == Phase::CreateSession
            }
            &&& !given ==> {
                &&& turn == SetupTurn::<P>::Failed(
                    SetupError::Results(ResultsError::NoSessionHandle),
                )
                &&& after.phase == Phase::CreateSession
            }
        }),
{
}

/// After devices come sources, and after sources the start, whatever the results; the handle stays.
/// The start ends the set-up, with the handle and the node that the results tell of, or with what is
/// missing from them.
pub proof fn a_selected_session_is_started<P>(
    setup: SessionSetup,
    results: Map<Seq<char>, Arg>,
    after: SessionSetup,
    turn: SetupTurn<P>,
)
    requires
        setup.phase != Phase::CreateSession,
        setup.advances(results, after, turn),
    ensures
        after.session_handle@ == setup.session_handle@,
        setup.phase == Phase::SelectDevices ==> turn is Call && after.phase == Phase::SelectSources,
        setup.phase == Phase::SelectSources ==> turn is Call && after.phase == Phase::Start,
        setup.phase == Phase::Start ==> {
            &&& after.phase == Phase::Start
            &&& stream_node(results) is Ok ==> {
                &&& turn matches SetupTurn::Done { session_handle, node_id }
                &&& session_handle@ == setup.session_handle@
                &&& node_id == stream_node(results)->Ok_0
            }
            &&& stream_node(results) matches Err(problem) ==> turn == SetupTurn::<P>::Failed(
                SetupError::Results(problem),
            )
        },
{
}

/// A set-up waits exactly if it has a request, and that request can go on.
pub proof fn a_set_up_waits_with_its_request<P>(setup: SessionSetup, table: Table<P>)
    ensures
        setup.is_waiting_in(table) <==> match setup.request {
            Some(request) => request.is_waiting_in(table),
            None => false,
        },
{
}

/// The user has five minutes to answer when a session is started; every other request is answered
/// within a second.
pub proof fn only_the_start_may_take_long(phase: Phase)
    ensures
        phase == Phase::Start ==> timeout_of(phase) == 300_000_000_000,
        phase != Phase::Start ==> timeout_of(phase) == 1_000_000_000,
        SECOND == 1_000_000_000,
{
}

/// What is missing from results is told in these words.
pub proof fn missing_results_are_told<P>(
    missing: ResultsError,
    problem: PortalError<P>,
    shown_reply: Seq<char>,
)
    ensures
        missing is NoSessionHandle ==> missing.told() == "no session handle in response"@,
        missing matches ResultsError::BadSessionHandle(text) ==> missing.told() == text@,
        missing is NoStream ==> missing.told() == "no stream in response"@,
        missing is NoNodeId ==> missing.told() == "no ID in stream tuple"@,
        missing is NoProperties ==> missing.told() == "no properties in stream tuple"@,
        SetupError::<P>::Results(missing).told(shown_reply) == missing.told(),
        SetupError::<P>::Request(problem).told(shown_reply) == problem.told(shown_reply),
{
}

} // verus!
