//! The filter of pending transactions that the node keeps for a session:
//! how it is opened and how it is polled.

use crate::error::MonitorError;
use crate::json::{items, json_document, json_items, json_member, json_text, member, text};
use crate::rpc::{body_payload, call_payload, call_result, read_response, request_for, RpcRequest};
use serde_json::Value;
use vstd::prelude::*;

verus! {

/// The method that creates a filter of pending transactions.
pub const NEW_FILTER_METHOD: &'static str = "eth_newPendingTransactionFilter";

/// The method that returns what a filter has collected since it was last
/// asked.
pub const FILTER_CHANGES_METHOD: &'static str = "eth_getFilterChanges";

/// The token by which the node knows a filter.
#[derive(Debug, PartialEq, Eq)]
pub struct FilterHandle {
    id: String,
}

impl View for FilterHandle {
    type V = Seq<char>;

    closed spec fn view(&self) -> Seq<char> {
        self.id@
    }
}

impl FilterHandle {
    /// The handle that holds `id`.
    pub fn new(id: &str) -> (handle: Self)
        ensures
            handle@ == id@,
    {
        FilterHandle { id: id.to_owned() }
    }

    /// The token as text.
    pub fn as_str(&self) -> (id: &str)
        ensures
            id@ == self@,
    {
        self.id.as_str()
    }

    /// A second handle on the same filter.
    pub fn duplicate(&self) -> (handle: Self)
        ensures
            handle@ == self@,
    {
        FilterHandle { id: self.id.clone() }
    }
}

/// The call that creates a filter.
pub fn open_request() -> (request: RpcRequest)
    ensures
        request@ == request_for(NEW_FILTER_METHOD@, Seq::empty()),
{
    let params: Vec<String> = Vec::new();
    assert(params.deep_view() =~= Seq::<Seq<char>>::empty());
    RpcRequest::new(NEW_FILTER_METHOD, params)
}

/// The call that polls a filter.
pub fn poll_request(handle: &FilterHandle) -> (request: RpcRequest)
    ensures
        request@ == request_for(FILTER_CHANGES_METHOD@, seq![handle@]),
{
    let mut params: Vec<String> = Vec::new();
    params.push(handle.as_str().to_owned());
    assert(params.deep_view() =~= seq![handle@]);
    RpcRequest::new(FILTER_CHANGES_METHOD, params)
}

/// The handle that a result of the creating call holds: the result must be
/// a string.
pub open spec fn handle_of(result: Option<Seq<char>>) -> Result<Seq<char>, MonitorError> {
    match result {
        Some(id) => Ok(id),
        None => Err(MonitorError::Protocol),
    }
}

/// A handle or an error, as text.
pub open spec fn handle_view(outcome: Result<FilterHandle, MonitorError>) -> Result<
    Seq<char>,
    MonitorError,
> {
    match outcome {
        Ok(handle) => Ok(handle@),
        Err(error) => Err(error),
    }
}

/// The text of the payload of a call, where there is a payload and it is a
/// string.
pub open spec fn payload_text(payload: Option<Value>) -> Option<Seq<char>> {
    match payload {
        Some(result) => json_text(result),
        None => None,
    }
}

/// Makes the handle from the text that the creating call returned.  No text
/// is a protocol error.
pub fn handle_from_result(result: Option<&str>) -> (outcome: Result<FilterHandle, MonitorError>)
    ensures
        handle_view(outcome) == handle_of(
            match result {
                Some(id) => Some(id@),
                None => None,
            },
        ),
{
    match result {
        Some(id) => Ok(FilterHandle::new(id)),
        None => Err(MonitorError::Protocol),
    }
}

/// Opens a session from the response to the creating call.
pub fn open_response(response: &Value) -> (outcome: Result<FilterHandle, MonitorError>)
    ensures
        handle_view(outcome) == handle_of(payload_text(call_payload(*response))),
{
    match call_result(response) {
        Ok(result) => handle_from_result(text(result)),
        Err(error) => Err(error),
    }
}

/// Opens a session from the body of the response to the creating call.
///
/// The handle is the member `result` of the body, which must be a string.
/// A body that is no JSON document, that reports an error, that has no
/// `result`, or whose `result` is no string is a protocol error.
pub fn open(body: &str) -> (outcome: Result<FilterHandle, MonitorError>)
    ensures
        handle_view(outcome) == handle_of(payload_text(body_payload(body@))),
{
    match read_response(body) {
        Ok(response) => open_response(&response),
        Err(error) => Err(error),
    }
}

/// Whether every entry is a text.
pub open spec fn all_texts(entries: Seq<Option<Seq<char>>>) -> bool {
    forall|i: int| 0 <= i < entries.len() ==> (#[trigger] entries[i]) is Some
}

/// The batch of hashes that the entries of a polled array give: the entries
/// in order where each of them is a text, and a decoding error where one is
/// not.
pub open spec fn batch_of(entries: Seq<Option<Seq<char>>>) -> Result<Seq<Seq<char>>, MonitorError> {
    if all_texts(entries) {
        Ok(Seq::new(entries.len(), |i: int| entries[i]->Some_0))
    } else {
        Err(MonitorError::Decoding)
    }
}

/// A batch of hashes or an error, as texts.
pub open spec fn batch_view(outcome: Result<Vec<String>, MonitorError>) -> Result<
    Seq<Seq<char>>,
    MonitorError,
> {
    match outcome {
        Ok(hashes) => Ok(hashes.deep_view()),
        Err(error) => Err(error),
    }
}

/// For each element of a JSON array its text, where it is a string.
pub open spec fn texts_of(elements: Seq<Value>) -> Seq<Option<Seq<char>>> {
    Seq::new(elements.len(), |i: int| json_text(elements[i]))
}

/// The elements of the array under `result` in a response: `None` where
/// `result` is absent or is no array.
pub open spec fn result_elements(response: Value) -> Option<Seq<Value>> {
    match json_member(response, "result"@) {
        Some(result) => json_items(result),
        None => None,
    }
}

/// The entries that polling reads in a response: those of the array under
/// `result`, and none where `result` is absent or is no array.
pub open spec fn polled_entries(response: Value) -> Seq<Option<Seq<char>>> {
    match result_elements(response) {
        Some(elements) => texts_of(elements),
        None => Seq::empty(),
    }
}

/// What polling gives for the body of a response: a protocol error where
/// the body is no JSON document, and else the batch of its entries.
pub open spec fn polled(body: Seq<char>) -> Result<Seq<Seq<char>>, MonitorError> {
    match json_document(body) {
        Some(response) => batch_of(polled_entries(response)),
        None => Err(MonitorError::Protocol),
    }
}

/// Collects the hashes of a batch.  If one entry is no text the whole batch
/// fails with a decoding error, and no hash of it is returned.
pub fn hashes_from_entries(entries: Vec<Option<String>>) -> (outcome: Result<
    Vec<String>,
    MonitorError,
>)
    ensures
        batch_view(outcome) == batch_of(entries.deep_view()),
        match outcome {
            Ok(hashes) => {
                &&& hashes@.len() == entries@.len()
                &&& forall|i: int|
                    0 <= i < entries@.len() ==> (#[trigger] entries@[i]) is Some
                        && entries@[i]->Some_0@ == hashes@[i]@
            },
            Err(error) => {
                &&& error == MonitorError::Decoding
                &&& exists|i: int| 0 <= i < entries@.len() && (#[trigger] entries@[i]) is None
            },
        },
{
    let ghost wanted = entries.deep_view();
    let ghost given = entries@;
    let mut hashes: Vec<String> = Vec::new();
    for entry in it: entries
        invariant
            it.seq() == given,
            wanted == Seq::new(given.len(), |j: int| given[j].deep_view()),
            hashes@.len() == it.index(),
            forall|j: int| 0 <= j < it.index() ==> (#[trigger] given[j]) is Some,
            forall|j: int| 0 <= j < it.index() ==> (#[trigger] hashes@[j])@ == given[j]->Some_0@,
    {
        match entry {
            Some(hash) => {
                hashes.push(hash);
            },
            None => {
                proof {
                    assert(wanted[it.index() as int] is None);
                }
                return Err(MonitorError::Decoding);
            },
        }
    }
    proof {
        assert forall|j: int| 0 <= j < wanted.len() implies (#[trigger] wanted[j]) is Some by {
            assert(given[j] is Some);
        }
        assert(hashes.deep_view() =~= Seq::new(wanted.len(), |j: int| wanted[j]->Some_0));
    }
    Ok(hashes)
}

/// Reads, for each element of a JSON array, its text where it is a string.
pub fn read_entries(elements: &Vec<Value>) -> (entries: Vec<Option<String>>)
    ensures
        entries.deep_view() == texts_of(elements@),
{
    let mut entries: Vec<Option<String>> = Vec::new();
    let mut i: usize = 0;
    while i < elements.len()
        invariant
            i <= elements@.len(),
            entries@.len() == i,
            forall|j: int| 0 <= j < i ==> (#[trigger] entries@[j]).deep_view() == json_text(elements@[j]),
        decreases elements@.len() - i,
    {
        match text(&elements[i]) {
            Some(found) => entries.push(Some(found.to_owned())),
            None => entries.push(None),
        }
        i += 1;
    }
    proof {
        assert(entries.deep_view() =~= texts_of(elements@));
    }
    entries
}

/// Polls from a response: the hashes under `result`.
pub fn poll_response(response: &Value) -> (outcome: Result<Vec<String>, MonitorError>)
    ensures
        batch_view(outcome) == batch_of(polled_entries(*response)),
        result_elements(*response) is None ==> outcome is Ok && outcome->Ok_0@.len() == 0,
        !all_texts(polled_entries(*response)) ==> outcome is Err && outcome->Err_0
            == MonitorError::Decoding,
{
    let elements = match member(response, "result") {
        Some(result) => items(result),
        None => None,
    };
    match elements {
        Some(elements) => hashes_from_entries(read_entries(elements)),
        None => {
            let hashes: Vec<String> = Vec::new();
            proof {
                let none = Seq::<Option<Seq<char>>>::empty();
                assert(hashes.deep_view() =~= Seq::new(none.len(), |i: int| none[i]->Some_0));
            }
            Ok(hashes)
        },
    }
}

/// Polls from the body of the response to the polling call.
///
/// The batch holds the elements of the array under `result`, in order.  A
/// body without `result`, or whose `result` is no array, gives the empty
/// batch.  An element that is no string fails the whole batch with a
/// decoding error; a body that is no JSON document is a protocol error.
pub fn poll(body: &str) -> (outcome: Result<Vec<String>, MonitorError>)
    ensures
        batch_view(outcome) == polled(body@),
        json_document(body@) matches Some(response) && result_elements(response) is None
            ==> outcome is Ok && outcome->Ok_0@.len() == 0,
        json_document(body@) matches Some(response) && !all_texts(polled_entries(response))
            ==> outcome is Err && outcome->Err_0 == MonitorError::Decoding,
{
    match read_response(body) {
        Ok(response) => poll_response(&response),
        Err(error) => Err(error),
    }
}

} // verus!
