//! The calls that the pipeline makes on the node, and what counts as an
//! answer to one.

use crate::error::MonitorError;
use crate::json::{json_document, json_member, member, parse_document};
use serde_json::Value;
use vstd::prelude::*;

verus! {

/// The version of the JSON-RPC protocol that every call names.
pub const JSONRPC_VERSION: &'static str = "2.0";

/// The identifier that every call carries.
pub const REQUEST_ID: u64 = 1;

/// One call: what is posted to the node, field by field.
#[derive(Debug, PartialEq, Eq)]
pub struct RpcRequest {
    /// The protocol version.
    pub jsonrpc: String,
    /// The name of the method that is called.
    pub method: String,
    /// The arguments of the method, in order.
    pub params: Vec<String>,
    /// The identifier of the call.
    pub id: u64,
}

/// An `RpcRequest` as texts.
pub struct RequestView {
    pub jsonrpc: Seq<char>,
    pub method: Seq<char>,
    pub params: Seq<Seq<char>>,
    pub id: u64,
}

impl View for RpcRequest {
    type V = RequestView;

    open spec fn view(&self) -> RequestView {
        RequestView {
            jsonrpc: self.jsonrpc@,
            method: self.method@,
            params: self.params.deep_view(),
            id: self.id,
        }
    }
}

/// The call of `method` with `params`.
pub open spec fn request_for(method: Seq<char>, params: Seq<Seq<char>>) -> RequestView {
    RequestView { jsonrpc: JSONRPC_VERSION@, method, params, id: REQUEST_ID }
}

impl RpcRequest {
    /// The call of `method` with `params`.
    pub fn new(method: &str, params: Vec<String>) -> (request: Self)
        ensures
            request@ == request_for(method@, params.deep_view()),
    {
        RpcRequest {
            jsonrpc: JSONRPC_VERSION.to_owned(),
            method: method.to_owned(),
            params,
            id: REQUEST_ID,
        }
    }
}

/// What a call returned, going by the response of the node: the member
/// `result`, unless the response has a member `error` or has no `result`.
pub open spec fn call_payload(response: Value) -> Option<Value> {
    if json_member(response, "error"@) is Some {
        None
    } else {
        json_member(response, "result"@)
    }
}

/// What a call returned, going by the body of the response: the payload of
/// the document that the body holds.
pub open spec fn body_payload(body: Seq<char>) -> Option<Value> {
    match json_document(body) {
        Some(response) => call_payload(response),
        None => None,
    }
}

/// Reads the body of a response as a JSON document.  A body that is not one
/// is a protocol error.
pub fn read_response(body: &str) -> (outcome: Result<Value, MonitorError>)
    ensures
        match outcome {
            Ok(response) => json_document(body@) == Some(response),
            Err(error) => error == MonitorError::Protocol && json_document(body@) is None,
        },
{
    match parse_document(body) {
        Ok(response) => Ok(response),
        Err(_) => Err(MonitorError::Protocol),
    }
}

/// Takes the result of a call out of the response.  A response that reports
/// an error, or that holds no result, is a protocol error.
pub fn call_result<'a>(response: &'a Value) -> (outcome: Result<&'a Value, MonitorError>)
    ensures
        match outcome {
            Ok(result) => call_payload(*response) == Some(*result),
            Err(error) => error == MonitorError::Protocol && call_payload(*response) is None,
        },
{
    if member(response, "error").is_some() {
        return Err(MonitorError::Protocol);
    }
    match member(response, "result") {
        Some(result) => Ok(result),
        None => Err(MonitorError::Protocol),
    }
}

} // verus!
