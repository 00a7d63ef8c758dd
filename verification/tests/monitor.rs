use mempool_monitor::classifier::{fetch_request, ClassificationResult};
use mempool_monitor::config::AlchemyConfig;
use mempool_monitor::error::MonitorError;
use mempool_monitor::filter::{open_request, poll_request, FilterHandle};
use mempool_monitor::monitor::{start, step, Action, Event, MonitorState, CHANNEL_CAPACITY};
use mempool_monitor::selectors::FunctionName;

fn response(body: &str) -> Event {
    Event::Response(body.to_string())
}

fn polling(id: &str) -> MonitorState {
    MonitorState::Polling(FilterHandle::new(id))
}

fn call(id: &str, dispatch: &[&str]) -> Action {
    Action::Call {
        dispatch: dispatch.iter().map(|hash| hash.to_string()).collect(),
        request: poll_request(&FilterHandle::new(id)),
    }
}

#[test]
fn session_starts_by_creating_the_filter() {
    let (state, request) = start();
    assert_eq!(state, MonitorState::Opening);
    assert_eq!(request, open_request());
    assert_eq!(request.method, "eth_newPendingTransactionFilter");
}

#[test]
fn opening_leads_to_polling() {
    let (state, action) = step(MonitorState::Opening, response("{\"result\":\"0xabc\"}"));
    assert_eq!(state, polling("0xabc"));
    assert_eq!(action, call("0xabc", &[]));
}

#[test]
fn opening_fails_for_good() {
    let (state, action) = step(MonitorState::Opening, response("{\"result\":null}"));
    assert_eq!(state, MonitorState::Stopped(MonitorError::Protocol));
    assert_eq!(action, Action::Stop(MonitorError::Protocol));
    let (state, action) = step(MonitorState::Opening, Event::TransportFailure);
    assert_eq!(state, MonitorState::Stopped(MonitorError::Transport));
    assert_eq!(action, Action::Stop(MonitorError::Transport));
}

#[test]
fn each_batch_is_dispatched_and_the_filter_polled_again() {
    let (state, action) = step(polling("0xabc"), response("{\"result\":[\"0x111\",\"0x222\"]}"));
    assert_eq!(state, polling("0xabc"));
    assert_eq!(action, call("0xabc", &["0x111", "0x222"]));
}

#[test]
fn an_empty_poll_goes_on_polling() {
    let (state, action) = step(polling("0xabc"), response("{\"result\":[]}"));
    assert_eq!(state, polling("0xabc"));
    assert_eq!(action, call("0xabc", &[]));
    let (state, action) = step(state, response("{\"jsonrpc\":\"2.0\",\"id\":1}"));
    assert_eq!(state, polling("0xabc"));
    assert_eq!(action, call("0xabc", &[]));
}

#[test]
fn a_failed_poll_stops_the_session() {
    let (state, action) = step(polling("0xabc"), response("{\"result\":[\"0x111\",7]}"));
    assert_eq!(state, MonitorState::Stopped(MonitorError::Decoding));
    assert_eq!(action, Action::Stop(MonitorError::Decoding));
    let (state, action) = step(polling("0xabc"), response("garbage"));
    assert_eq!(state, MonitorState::Stopped(MonitorError::Protocol));
    assert_eq!(action, Action::Stop(MonitorError::Protocol));
    let (state, action) = step(polling("0xabc"), Event::TransportFailure);
    assert_eq!(state, MonitorState::Stopped(MonitorError::Transport));
    assert_eq!(action, Action::Stop(MonitorError::Transport));
}

#[test]
fn a_stopped_session_stays_stopped() {
    let stopped = MonitorState::Stopped(MonitorError::Decoding);
    let (state, action) = step(stopped, response("{\"result\":[\"0x111\"]}"));
    assert_eq!(state, MonitorState::Stopped(MonitorError::Decoding));
    assert_eq!(action, Action::Stop(MonitorError::Decoding));
    let (state, action) = step(state, Event::TransportFailure);
    assert_eq!(state, MonitorState::Stopped(MonitorError::Decoding));
    assert_eq!(action, Action::Stop(MonitorError::Decoding));
}

#[test]
fn channel_holds_a_hundred_results() {
    assert_eq!(CHANNEL_CAPACITY, 100);
}

fn run_batch(config: &AlchemyConfig, bodies: &[(&str, String)]) -> Vec<Result<Option<ClassificationResult>, MonitorError>> {
    let (state, first) = start();
    assert_eq!(first, open_request());
    let (state, action) = step(state, response("{\"result\":\"0xabc\"}"));
    assert_eq!(action, call("0xabc", &[]));
    let hashes: Vec<String> = bodies.iter().map(|(hash, _)| format!("\"{}\"", hash)).collect();
    let batch = format!("{{\"result\":[{}]}}", hashes.join(","));
    let (state, action) = step(state, response(&batch));
    assert_eq!(state, polling("0xabc"));
    let dispatch = match action {
        Action::Call { dispatch, request } => {
            assert_eq!(request, poll_request(&FilterHandle::new("0xabc")));
            dispatch
        }
        Action::Stop(error) => panic!("the session stopped: {:?}", error),
    };
    assert_eq!(dispatch.len(), bodies.len());
    let mut outcomes = Vec::new();
    for (hash, (expected, body)) in dispatch.iter().zip(bodies) {
        assert_eq!(hash, expected);
        assert_eq!(fetch_request(hash).params, vec![hash.clone()]);
        outcomes.push(config.classify(hash, body));
    }
    outcomes
}

fn fetched(to: &str, input: &str) -> String {
    format!("{{\"jsonrpc\":\"2.0\",\"id\":1,\"result\":{{\"to\":\"{}\",\"input\":\"{}\"}}}}", to, input)
}

#[test]
fn router_swap_is_reported_and_other_transaction_is_dropped() {
    let config = AlchemyConfig::init("http://localhost:8545");
    let first = "0x1111111111111111111111111111111111111111111111111111111111111111";
    let second = "0x2222222222222222222222222222222222222222222222222222222222222222";
    let outcomes = run_batch(
        &config,
        &[
            (first, fetched("0x7a250d5630B4cF539739dF2C5dAcb4c659F2488D", "0x791ac9470000000000000000")),
            (second, fetched("0xDEADBEEF00000000000000000000000000000000", "0x791ac9470000000000000000")),
        ],
    );
    assert_eq!(
        outcomes,
        vec![
            Ok(Some(ClassificationResult {
                hash: first.to_string(),
                router: true,
                selector: "0x791ac947".to_string(),
                function: FunctionName::Known("swapExactTokensForTokens".to_string()),
            })),
            Ok(None),
        ]
    );
    let reported = outcomes[0].as_ref().unwrap().as_ref().unwrap();
    assert!(reported.router);
    assert_eq!(reported.function.label(), "swapExactTokensForTokens");
}

#[test]
fn short_call_data_fails_one_transaction_only() {
    let config = AlchemyConfig::init("http://localhost:8545");
    let router = "0x7a250d5630b4cf539739df2c5dacb4c659f2488d";
    let outcomes = run_batch(
        &config,
        &[("0xaaa", fetched(router, "0x12")), ("0xbbb", fetched(router, "0x38ed1739ffff"))],
    );
    assert_eq!(
        outcomes,
        vec![
            Err(MonitorError::Decoding),
            Ok(Some(ClassificationResult {
                hash: "0xbbb".to_string(),
                router: true,
                selector: "0x38ed1739".to_string(),
                function: FunctionName::Known("swapExactTokensForTokens".to_string()),
            })),
        ]
    );
}

#[test]
fn failed_fetch_fails_one_transaction_only() {
    let config = AlchemyConfig::init("http://localhost:8545");
    let router = "0xE592427A0AEce92De3Edee1F18E0157C05861564";
    let outcomes = run_batch(
        &config,
        &[
            ("0xaaa", "{\"error\":{\"code\":-32000}}".to_string()),
            ("0xbbb", fetched(router, "0xdeadbeef00")),
            ("0xccc", "<html>".to_string()),
        ],
    );
    assert_eq!(
        outcomes,
        vec![
            Err(MonitorError::Protocol),
            Ok(Some(ClassificationResult {
                hash: "0xbbb".to_string(),
                router: true,
                selector: "0xdeadbeef".to_string(),
                function: FunctionName::Unknown,
            })),
            Err(MonitorError::Protocol),
        ]
    );
}
