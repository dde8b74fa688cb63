use sol_trade_sdk::error::ProviderError;
use sol_trade_sdk::provider::{ProviderDescriptor, ProviderKind, TradeType};
use sol_trade_sdk::wire::{classify_reply, interpret_reply, ping_url, send_body_for, submit_request};

fn pair(a: &str, b: &str) -> (String, String) {
    (a.to_string(), b.to_string())
}

#[test]
fn node1_sends_api_key_header_and_skips_preflight() {
    let p = ProviderDescriptor::new("https://node1.example".to_string(), "KEY".to_string(), ProviderKind::Node1, vec![]);
    let r = submit_request(&p, b"hello");
    assert_eq!(r.url, "https://node1.example");
    assert_eq!(r.headers, vec![pair("Content-Type", "application/json"), pair("api-key", "KEY")]);
    assert_eq!(
        r.body,
        "{\"id\":1,\"jsonrpc\":\"2.0\",\"method\":\"sendTransaction\",\"params\":[\"aGVsbG8=\",{\"encoding\":\"base64\",\"skipPreflight\":true}]}"
    );
}

#[test]
fn nozomi_sends_token_in_query() {
    let p = ProviderDescriptor::new("https://nozomi.example".to_string(), "TOK".to_string(), ProviderKind::Nozomi, vec![]);
    let r = submit_request(&p, &[1, 2, 3]);
    assert_eq!(r.url, "https://nozomi.example/?c=TOK");
    assert_eq!(r.headers, vec![pair("Content-Type", "application/json")]);
    assert_eq!(
        r.body,
        "{\"id\":1,\"jsonrpc\":\"2.0\",\"method\":\"sendTransaction\",\"params\":[\"AQID\",{\"encoding\":\"base64\"}]}"
    );
}

#[test]
fn body_is_valid_json() {
    let body = send_body_for("AQID", true);
    let v: serde_json::Value = serde_json::from_str(&body).unwrap();
    assert_eq!(v["method"], "sendTransaction");
    assert_eq!(v["params"][0], "AQID");
    assert_eq!(v["params"][1]["skipPreflight"], true);
}

#[test]
fn ping_url_adds_one_slash() {
    assert_eq!(ping_url("https://a.example"), "https://a.example/ping");
    assert_eq!(ping_url("https://a.example/"), "https://a.example/ping");
    assert_eq!(ping_url(""), "/ping");
}

#[test]
fn replies_with_result_are_accepted() {
    assert_eq!(classify_reply("{\"jsonrpc\":\"2.0\",\"result\":\"5abc\",\"id\":1}".to_string()), Ok(()));
    let err = "{\"jsonrpc\":\"2.0\",\"error\":{\"code\":-32002,\"message\":\"Blockhash not found\"},\"id\":1}";
    assert_eq!(classify_reply(err.to_string()), Err(ProviderError::Submission(err.to_string())));
    assert_eq!(classify_reply("<html>busy</html>".to_string()), Err(ProviderError::Submission("<html>busy</html>".to_string())));
    assert_eq!(interpret_reply(Some(true), "x".to_string()), Ok(()));
    assert_eq!(interpret_reply(Some(false), "x".to_string()), Err(ProviderError::Submission("x".to_string())));
    assert_eq!(interpret_reply(None, "y".to_string()), Err(ProviderError::Submission("y".to_string())));
}

#[test]
fn trade_type_names() {
    assert_eq!(TradeType::Buy.name(), "Buy");
    assert_eq!(TradeType::CreateAndBuy.name(), "CreateAndBuy");
}
