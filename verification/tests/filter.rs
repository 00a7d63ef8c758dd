use mempool_monitor::error::MonitorError;
use mempool_monitor::filter::{
    handle_from_result, hashes_from_entries, open, open_response, poll, poll_response,
    read_entries, FilterHandle,
};
use serde_json::Value;

fn parsed(text: &str) -> Value {
    serde_json::from_str(text).unwrap()
}

fn texts(items: &[&str]) -> Vec<String> {
    items.iter().map(|item| item.to_string()).collect()
}

#[test]
fn handle_keeps_its_token() {
    let handle = FilterHandle::new("0xabc");
    assert_eq!(handle.as_str(), "0xabc");
    assert_eq!(handle.duplicate(), handle);
    assert_eq!(handle.duplicate().as_str(), "0xabc");
}

#[test]
fn handle_from_result_takes_the_text() {
    assert_eq!(handle_from_result(Some("0xabc")), Ok(FilterHandle::new("0xabc")));
    assert_eq!(handle_from_result(Some("")), Ok(FilterHandle::new("")));
}

#[test]
fn handle_from_no_result_is_a_protocol_error() {
    assert_eq!(handle_from_result(None), Err(MonitorError::Protocol));
}

#[test]
fn open_yields_the_filter_handle() {
    let handle = open("{\"result\":\"0xabc\"}").unwrap();
    assert_eq!(handle.as_str(), "0xabc");
}

#[test]
fn open_reads_a_full_reply() {
    let body = "{\"jsonrpc\":\"2.0\",\"id\":1,\"result\":\"0x10ff0bfba9472c87932c56632eef8f5cc70910e8e71d\"}";
    let handle = open(body).unwrap();
    assert_eq!(handle.as_str(), "0x10ff0bfba9472c87932c56632eef8f5cc70910e8e71d");
}

#[test]
fn open_unescapes_the_token() {
    let handle = open("{\"result\":\"a\\\"b\\u0041\"}").unwrap();
    assert_eq!(handle.as_str(), "a\"bA");
}

#[test]
fn open_without_result_is_a_protocol_error() {
    assert_eq!(open("{}"), Err(MonitorError::Protocol));
    assert_eq!(open("{\"id\":1,\"jsonrpc\":\"2.0\"}"), Err(MonitorError::Protocol));
}

#[test]
fn open_with_a_result_that_is_no_string_is_a_protocol_error() {
    assert_eq!(open("{\"result\":null}"), Err(MonitorError::Protocol));
    assert_eq!(open("{\"result\":17}"), Err(MonitorError::Protocol));
    assert_eq!(open("{\"result\":true}"), Err(MonitorError::Protocol));
    assert_eq!(open("{\"result\":[\"0xabc\"]}"), Err(MonitorError::Protocol));
    assert_eq!(open("{\"result\":{\"id\":\"0xabc\"}}"), Err(MonitorError::Protocol));
}

#[test]
fn open_with_an_error_member_is_a_protocol_error() {
    assert_eq!(open("{\"error\":{\"code\":-32601,\"message\":\"no such method\"}}"), Err(MonitorError::Protocol));
    assert_eq!(open("{\"result\":\"0xabc\",\"error\":{\"code\":1}}"), Err(MonitorError::Protocol));
}

#[test]
fn open_with_a_body_that_is_no_json_is_a_protocol_error() {
    assert_eq!(open(""), Err(MonitorError::Protocol));
    assert_eq!(open("<html>Bad Gateway</html>"), Err(MonitorError::Protocol));
    assert_eq!(open("\"0xabc\""), Err(MonitorError::Protocol));
}

#[test]
fn open_response_reads_a_value() {
    assert_eq!(open_response(&parsed("{\"result\":\"0xabc\"}")), Ok(FilterHandle::new("0xabc")));
    assert_eq!(open_response(&parsed("{\"result\":7}")), Err(MonitorError::Protocol));
    assert_eq!(open_response(&parsed("[]")), Err(MonitorError::Protocol));
}

#[test]
fn poll_returns_the_hashes_in_order() {
    let body = "{\"result\":[\"0x111\",\"0x222\",\"0x333\"]}";
    assert_eq!(poll(body), Ok(texts(&["0x111", "0x222", "0x333"])));
    let reversed = "{\"result\":[\"0x333\",\"0x222\",\"0x111\"]}";
    assert_eq!(poll(reversed), Ok(texts(&["0x333", "0x222", "0x111"])));
}

#[test]
fn poll_keeps_repeated_hashes() {
    assert_eq!(poll("{\"result\":[\"0x1\",\"0x1\"]}"), Ok(texts(&["0x1", "0x1"])));
}

#[test]
fn poll_without_result_is_an_empty_batch() {
    assert_eq!(poll("{}"), Ok(Vec::new()));
    assert_eq!(poll("{\"jsonrpc\":\"2.0\",\"id\":1}"), Ok(Vec::new()));
}

#[test]
fn poll_with_null_result_is_an_empty_batch() {
    assert_eq!(poll("{\"result\":null}"), Ok(Vec::new()));
}

#[test]
fn poll_with_a_result_that_is_no_array_is_an_empty_batch() {
    assert_eq!(poll("{\"result\":\"0x111\"}"), Ok(Vec::new()));
    assert_eq!(poll("{\"result\":5}"), Ok(Vec::new()));
    assert_eq!(poll("{\"result\":{\"0\":\"0x111\"}}"), Ok(Vec::new()));
    assert_eq!(poll("[\"0x111\"]"), Ok(Vec::new()));
}

#[test]
fn poll_with_an_empty_array_is_an_empty_batch() {
    assert_eq!(poll("{\"result\":[]}"), Ok(Vec::new()));
}

#[test]
fn poll_does_not_fail_for_an_error_member_without_result() {
    assert_eq!(poll("{\"error\":{\"code\":-32000,\"message\":\"filter not found\"}}"), Ok(Vec::new()));
}

#[test]
fn poll_fails_whole_for_an_element_that_is_no_string() {
    assert_eq!(poll("{\"result\":[\"0x111\",5,\"0x222\"]}"), Err(MonitorError::Decoding));
    assert_eq!(poll("{\"result\":[null]}"), Err(MonitorError::Decoding));
    assert_eq!(poll("{\"result\":[\"0x111\",\"0x222\",[\"0x333\"]]}"), Err(MonitorError::Decoding));
    assert_eq!(poll("{\"result\":[{\"hash\":\"0x111\"},\"0x222\"]}"), Err(MonitorError::Decoding));
}

#[test]
fn poll_with_a_body_that_is_no_json_is_a_protocol_error() {
    assert_eq!(poll(""), Err(MonitorError::Protocol));
    assert_eq!(poll("{\"result\":[\"0x111\""), Err(MonitorError::Protocol));
}

#[test]
fn poll_response_reads_a_value() {
    assert_eq!(poll_response(&parsed("{\"result\":[\"a\",\"b\"]}")), Ok(texts(&["a", "b"])));
    assert_eq!(poll_response(&parsed("{\"result\":[\"a\",1]}")), Err(MonitorError::Decoding));
    assert_eq!(poll_response(&parsed("null")), Ok(Vec::new()));
}

#[test]
fn read_entries_reads_each_element() {
    let elements = vec![
        Value::String("0x1".to_string()),
        Value::Null,
        Value::Bool(true),
        Value::String(String::new()),
        Value::Array(vec![Value::String("0x2".to_string())]),
    ];
    assert_eq!(
        read_entries(&elements),
        vec![Some("0x1".to_string()), None, None, Some(String::new()), None]
    );
    assert_eq!(read_entries(&Vec::new()), Vec::<Option<String>>::new());
}

#[test]
fn hashes_from_entries_collects_the_texts() {
    let entries = vec![Some("0x1".to_string()), Some("0x2".to_string())];
    assert_eq!(hashes_from_entries(entries), Ok(texts(&["0x1", "0x2"])));
    assert_eq!(hashes_from_entries(Vec::new()), Ok(Vec::new()));
}

#[test]
fn hashes_from_entries_fails_for_any_missing_text() {
    assert_eq!(hashes_from_entries(vec![None]), Err(MonitorError::Decoding));
    assert_eq!(
        hashes_from_entries(vec![Some("0x1".to_string()), None]),
        Err(MonitorError::Decoding)
    );
    assert_eq!(
        hashes_from_entries(vec![None, Some("0x1".to_string())]),
        Err(MonitorError::Decoding)
    );
}
