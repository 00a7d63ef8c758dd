//! Classification of one fetched transaction.

use crate::ascii::same_ignoring_case;
use crate::error::MonitorError;
use crate::json::{json_member, json_text, member, text};
use crate::routers::{lists_address, RouterAddressSet};
use crate::rpc::{body_payload, call_result, read_response, request_for, RpcRequest};
use crate::selectors::{name_in, FunctionName, SelectorTable, SELECTOR_LEN};
use serde_json::Value;
use vstd::prelude::*;
use vstd::string::StrSliceExecFns;

verus! {

/// The method that returns a transaction by its hash.
pub const TRANSACTION_METHOD: &'static str = "eth_getTransactionByHash";

/// The part of a fetched transaction that classification reads.
#[derive(Debug, PartialEq, Eq)]
pub struct TransactionRecord {
    /// The destination address.  A transaction that creates a contract has
    /// none.
    pub to: Option<String>,
    /// The call data, in hexadecimal with the prefix `0x`.
    pub input: Option<String>,
}

/// A `TransactionRecord` as texts.
pub struct RecordView {
    pub to: Option<Seq<char>>,
    pub input: Option<Seq<char>>,
}

impl View for TransactionRecord {
    type V = RecordView;

    open spec fn view(&self) -> RecordView {
        RecordView {
            to: match self.to {
                Some(address) => Some(address@),
                None => None,
            },
            input: match self.input {
                Some(data) => Some(data@),
                None => None,
            },
        }
    }
}

/// What the pipeline reports of a transaction that was sent to a router.
#[derive(Debug, PartialEq, Eq)]
pub struct ClassificationResult {
    /// The hash of the transaction.
    pub hash: String,
    /// Whether the destination is a router.  It is, in every result.
    pub router: bool,
    /// The first ten characters of the call data.
    pub selector: String,
    /// The name that the table gives to the selector.
    pub function: FunctionName,
}

/// A `ClassificationResult` as texts.
pub struct ResultView {
    pub hash: Seq<char>,
    pub router: bool,
    pub selector: Seq<char>,
    pub function: Option<Seq<char>>,
}

impl View for ClassificationResult {
    type V = ResultView;

    open spec fn view(&self) -> ResultView {
        ResultView {
            hash: self.hash@,
            router: self.router,
            selector: self.selector@,
            function: self.function@,
        }
    }
}

/// The outcome of a classification as texts.
pub open spec fn outcome_view(
    outcome: Result<Option<ClassificationResult>, MonitorError>,
) -> Result<Option<ResultView>, MonitorError> {
    match outcome {
        Ok(Some(found)) => Ok(Some(found@)),
        Ok(None) => Ok(None),
        Err(error) => Err(error),
    }
}

/// Whether a transaction has a destination and the destination is one of
/// `routers`, letter case aside.
pub open spec fn addressed_to_router(to: Option<Seq<char>>, routers: Seq<Seq<char>>) -> bool {
    match to {
        Some(address) => lists_address(routers, address),
        None => false,
    }
}

/// The selector of a call: the first ten characters of its data.
pub open spec fn selector_of(data: Seq<char>) -> Seq<char> {
    data.subrange(0, SELECTOR_LEN as int)
}

/// What the selector of a router transaction gives: nothing where the
/// transaction carries no call data, a decoding error where the data is
/// shorter than a selector, and else the selector with its name.
pub open spec fn selector_lookup(
    hash: Seq<char>,
    input: Option<Seq<char>>,
    table: Map<Seq<char>, Seq<char>>,
) -> Result<Option<ResultView>, MonitorError> {
    match input {
        None => Ok(None),
        Some(data) => if data.len() < SELECTOR_LEN {
            Err(MonitorError::Decoding)
        } else {
            Ok(
                Some(
                    ResultView {
                        hash,
                        router: true,
                        selector: selector_of(data),
                        function: name_in(table, selector_of(data)),
                    },
                ),
            )
        },
    }
}

/// What classification gives for a transaction: nothing unless it was sent
/// to a router, and else what its selector gives.
pub open spec fn classification(
    hash: Seq<char>,
    record: RecordView,
    routers: Seq<Seq<char>>,
    table: Map<Seq<char>, Seq<char>>,
) -> Result<Option<ResultView>, MonitorError> {
    if addressed_to_router(record.to, routers) {
        selector_lookup(hash, record.input, table)
    } else {
        Ok(None)
    }
}

/// A transaction whose destination is none of the routers, in whatever
/// letter case the destination is written, gives no result.
pub proof fn lemma_other_destination_gives_nothing(
    hash: Seq<char>,
    record: RecordView,
    routers: Seq<Seq<char>>,
    table: Map<Seq<char>, Seq<char>>,
)
    requires
        record.to matches Some(address) ==> forall|i: int|
            0 <= i < routers.len() ==> !same_ignoring_case(#[trigger] routers[i], address),
    ensures
        classification(hash, record, routers, table) == Ok::<Option<ResultView>, MonitorError>(
            None,
        ),
{
}

/// A transaction whose destination is one of the routers, written in any
/// letter case, is classified by its selector.
pub proof fn lemma_router_destination_is_looked_up(
    hash: Seq<char>,
    record: RecordView,
    routers: Seq<Seq<char>>,
    table: Map<Seq<char>, Seq<char>>,
    member: int,
)
    requires
        0 <= member < routers.len(),
        record.to matches Some(address) && same_ignoring_case(routers[member], address),
    ensures
        classification(hash, record, routers, table) == selector_lookup(
            hash,
            record.input,
            table,
        ),
{
}

/// Looks the selector of a router transaction up in the table.
pub fn lookup_selector(hash: &str, input: &Option<String>, selectors: &SelectorTable) -> (outcome:
    Result<Option<ClassificationResult>, MonitorError>)
    ensures
        outcome_view(outcome) == selector_lookup(
            hash@,
            match input {
                Some(data) => Some(data@),
                None => None,
            },
            selectors@,
        ),
{
    match input {
        None => Ok(None),
        Some(data) => {
            let data = data.as_str();
            if data.unicode_len() < SELECTOR_LEN {
                Err(MonitorError::Decoding)
            } else {
                let selector = data.substring_char(0, SELECTOR_LEN);
                let function = selectors.classify(selector);
                Ok(
                    Some(
                        ClassificationResult {
                            hash: hash.to_owned(),
                            router: true,
                            selector: selector.to_owned(),
                            function,
                        },
                    ),
                )
            }
        },
    }
}

/// Classifies one transaction.
///
/// A transaction without a destination, or whose destination is not one of
/// `routers`, gives no result.  One that was sent to a router, in whatever
/// letter case the address is written, gives what its selector gives.
pub fn classify_transaction(
    hash: &str,
    record: &TransactionRecord,
    routers: &RouterAddressSet,
    selectors: &SelectorTable,
) -> (outcome: Result<Option<ClassificationResult>, MonitorError>)
    ensures
        outcome_view(outcome) == classification(hash@, record@, routers@, selectors@),
        !addressed_to_router(record@.to, routers@) ==> outcome is Ok && outcome->Ok_0 is None,
        addressed_to_router(record@.to, routers@) ==> outcome_view(outcome) == selector_lookup(
            hash@,
            record@.input,
            selectors@,
        ),
{
    match &record.to {
        None => Ok(None),
        Some(address) => {
            if routers.contains(address.as_str()) {
                lookup_selector(hash, &record.input, selectors)
            } else {
                Ok(None)
            }
        },
    }
}

/// The call that fetches the transaction with the given hash.
pub fn fetch_request(hash: &str) -> (request: RpcRequest)
    ensures
        request@ == request_for(TRANSACTION_METHOD@, seq![hash@]),
{
    let mut params: Vec<String> = Vec::new();
    params.push(hash.to_owned());
    assert(params.deep_view() =~= seq![hash@]);
    RpcRequest::new(TRANSACTION_METHOD, params)
}

/// The text of a member of a JSON value: `None` where the value has no such
/// member or the member is no string.
pub open spec fn member_text(value: Value, key: Seq<char>) -> Option<Seq<char>> {
    match json_member(value, key) {
        Some(inner) => json_text(inner),
        None => None,
    }
}

/// The record that the result of a fetch holds: the texts of its members
/// `to` and `input`.
pub open spec fn record_of(result: Value) -> RecordView {
    RecordView { to: member_text(result, "to"@), input: member_text(result, "input"@) }
}

/// What classification gives for the body of the response to a fetch: a
/// protocol error where the body holds no result of the call, and else the
/// classification of the record in the result.
pub open spec fn classified(
    hash: Seq<char>,
    body: Seq<char>,
    routers: Seq<Seq<char>>,
    table: Map<Seq<char>, Seq<char>>,
) -> Result<Option<ResultView>, MonitorError> {
    match body_payload(body) {
        Some(result) => classification(hash, record_of(result), routers, table),
        None => Err(MonitorError::Protocol),
    }
}

/// Reads the text of a member of a JSON value.
fn read_member_text(value: &Value, key: &str) -> (found: Option<String>)
    ensures
        found.deep_view() == member_text(*value, key@),
{
    match member(value, key) {
        Some(inner) => match text(inner) {
            Some(found) => Some(found.to_owned()),
            None => None,
        },
        None => None,
    }
}

/// Reads the record out of the result of a fetch.
pub fn read_record(result: &Value) -> (record: TransactionRecord)
    ensures
        record@ == record_of(*result),
{
    TransactionRecord { to: read_member_text(result, "to"), input: read_member_text(result, "input") }
}

/// Classifies the transaction with the given hash from the body of the
/// response to its fetch.
///
/// A body that is no JSON document, that reports an error or that has no
/// `result` is a protocol error.  Otherwise the outcome is that of
/// `classify_transaction` on the record in `result`.
pub fn classify_response(
    hash: &str,
    body: &str,
    routers: &RouterAddressSet,
    selectors: &SelectorTable,
) -> (outcome: Result<Option<ClassificationResult>, MonitorError>)
    ensures
        outcome_view(outcome) == classified(hash@, body@, routers@, selectors@),
{
    let response = match read_response(body) {
        Ok(response) => response,
        Err(error) => {
            return Err(error);
        },
    };
    match call_result(&response) {
        Ok(result) => {
            let record = read_record(result);
            classify_transaction(hash, &record, routers, selectors)
        },
        Err(error) => Err(error),
    }
}

} // verus!
