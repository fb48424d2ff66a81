use contextbtc::json::{Json, JsonNumber};
use contextbtc::mcp_error::ErrorData;
use contextbtc::rpc::{
    body_snippet, reply_of_exchange, http_failure, http_failure_message, non_json_message, non_json_reply, reply_outcome, request_body, rpc_error_data,
    status_hint, ErrorKind, RetryPolicy, RpcCallError, RpcConfig, MAX_RETRIES,
};
use rmcp::model::ErrorCode;

fn s(v: &str) -> Json {
    Json::String(v.to_string())
}

fn i(v: i64) -> Json {
    Json::Number(JsonNumber::from_i64(v))
}

fn obj(entries: Vec<(&str, Json)>) -> Json {
    Json::Object(entries.into_iter().map(|(k, v)| (k.to_string(), v)).collect())
}

fn to_value(v: &Json) -> serde_json::Value {
    match v {
        Json::Null => serde_json::Value::Null,
        Json::Bool(b) => serde_json::Value::Bool(*b),
        Json::Number(JsonNumber::PosInt(u)) => serde_json::Value::from(*u),
        Json::Number(JsonNumber::NegInt(n)) => serde_json::Value::from(*n),
        Json::Number(JsonNumber::Float(x)) => serde_json::Value::Number(x.clone()),
        Json::String(t) => serde_json::Value::String(t.clone()),
        Json::Array(items) => serde_json::Value::Array(items.iter().map(to_value).collect()),
        Json::Object(entries) => {
            let mut map = serde_json::Map::new();
            for (k, v) in entries {
                map.insert(k.clone(), to_value(v));
            }
            serde_json::Value::Object(map)
        }
    }
}

/// What a client receives: the error serialized as MCP does it.
fn message(err: RpcCallError) -> String {
    let data: ErrorData = err.into_error_data();
    let mut map = serde_json::Map::new();
    map.insert("code".to_string(), serde_json::Value::from(data.code));
    map.insert("message".to_string(), serde_json::Value::String(data.message.clone()));
    if let Some(d) = &data.data {
        map.insert("data".to_string(), to_value(d));
    }
    serde_json::to_string(&serde_json::Value::Object(map)).unwrap()
}

fn rpc_error(err: &Json) -> RpcCallError {
    let source = anyhow::Error::msg(format!("bitcoind RPC error: {}", to_value(err)));
    RpcCallError::rpc(err, source)
}

#[test]
fn http_error_body_is_not_relayed() {
    let err = RpcCallError::unavailable(
        false,
        anyhow::Error::msg("bitcoind HTTP 502: <html>nginx/1.25 at node.internal:8332</html>"),
    );
    let msg = message(err);
    assert!(!msg.contains("nginx"), "{msg}");
    assert!(!msg.contains("node.internal"), "{msg}");
}

#[test]
fn rpc_error_message_is_not_relayed() {
    let err = rpc_error(&obj(vec![
        ("code", i(-1)),
        ("message", s("Block not available (pruned data)")),
    ]));
    let msg = message(err);
    assert!(!msg.contains("pruned"), "{msg}");
    assert!(msg.contains("-1"), "{msg}");
}

#[test]
fn known_rpc_codes_map_to_fixed_messages() {
    let data = rpc_error(&obj(vec![
        ("code", i(-5)),
        (
            "message",
            s("No such mempool or blockchain transaction. Use gettransaction for wallet transactions."),
        ),
    ]))
    .into_error_data();
    assert_eq!(data.code, ErrorCode::INVALID_PARAMS.0);
    assert_eq!(data.message, "block or transaction not found");
    assert_eq!(data.data, Some(obj(vec![("rpc_code", i(-5))])));
}

#[test]
fn rpc_error_without_code() {
    let data = rpc_error(&obj(vec![("message", s("secret detail"))])).into_error_data();
    assert_eq!(data.code, ErrorCode::INTERNAL_ERROR.0);
    assert_eq!(data.data, None);
}

#[test]
fn every_known_rpc_code_has_its_message() {
    let cases: [(i64, i32, &str); 10] = [
        (-5, ErrorCode::INVALID_PARAMS.0, "block or transaction not found"),
        (-8, ErrorCode::INVALID_PARAMS.0, "invalid parameter"),
        (-3, ErrorCode::INVALID_PARAMS.0, "malformed parameter"),
        (-22, ErrorCode::INVALID_PARAMS.0, "malformed parameter"),
        (-32602, ErrorCode::INVALID_PARAMS.0, "malformed parameter"),
        (-28, ErrorCode::INTERNAL_ERROR.0, "Bitcoin node is starting up; try again later"),
        (-9, ErrorCode::INTERNAL_ERROR.0, "Bitcoin node is not ready"),
        (-10, ErrorCode::INTERNAL_ERROR.0, "Bitcoin node is not ready"),
        (-32601, ErrorCode::INTERNAL_ERROR.0, "method not available on the Bitcoin node"),
        (-1, ErrorCode::INTERNAL_ERROR.0, "the Bitcoin node rejected the request"),
    ];
    for (code, kind, text) in cases {
        let data = rpc_error_data(Some(code));
        assert_eq!(data.code, kind, "{code}");
        assert_eq!(data.message, text, "{code}");
        assert_eq!(data.data, Some(obj(vec![("rpc_code", i(code))])));
    }
    let data = rpc_error_data(None);
    assert_eq!(data.message, "the Bitcoin node rejected the request");
    assert_eq!(data.data, None);
}

#[test]
fn unavailable_errors_get_the_generic_message() {
    let data = RpcCallError::transport(true, anyhow::Error::msg("connect to http://10.0.0.1:8332"))
        .into_error_data();
    assert_eq!(data.code, ErrorCode::INTERNAL_ERROR.0);
    assert_eq!(data.message, "failed to query the Bitcoin node (see server logs)");
    assert_eq!(data.data, None);
}

#[test]
fn errors_of_one_kind_look_the_same_to_clients() {
    let a = rpc_error(&obj(vec![("code", i(-8)), ("message", s("first secret"))]));
    let b = rpc_error(&obj(vec![("code", i(-8)), ("message", s("another secret"))]));
    assert_eq!(a.kind(), b.kind());
    assert_eq!(a.into_error_data(), b.into_error_data());
}

#[test]
fn rpc_code_must_be_an_integer() {
    let e = rpc_error(&obj(vec![("code", s("-5"))]));
    assert_eq!(e.kind(), ErrorKind::Rpc { code: None });
    let e = rpc_error(&obj(vec![("code", Json::Number(JsonNumber::PosInt(u64::MAX)))]));
    assert_eq!(e.kind(), ErrorKind::Rpc { code: None });
    let e = rpc_error(&obj(vec![("code", Json::Number(JsonNumber::PosInt(7)))]));
    assert_eq!(e.kind(), ErrorKind::Rpc { code: Some(7) });
    assert!(!e.is_retryable());
}

#[test]
fn send_failures_are_retried_only_when_transient() {
    let m = || anyhow::Error::msg("send failed");
    assert!(RpcCallError::send_failure(true, false, m()).is_retryable());
    assert!(RpcCallError::send_failure(false, true, m()).is_retryable());
    assert!(!RpcCallError::send_failure(false, false, m()).is_retryable());
    assert_eq!(RpcCallError::send_failure(false, false, m()).kind(), ErrorKind::Unavailable);
}

#[test]
fn http_statuses_are_classified() {
    assert!(http_failure(200, "{}").is_none());
    assert!(http_failure(204, "").is_none());
    for (status, retryable) in [(500, true), (502, true), (503, true), (429, true), (401, false), (403, false), (404, false), (302, false)] {
        let e = http_failure(status, "<html>oops</html>").expect("a failure");
        assert_eq!(e.is_retryable(), retryable, "{status}");
        assert_eq!(e.kind(), ErrorKind::Unavailable);
        let logged = e.source().to_string();
        assert!(logged.starts_with(&format!("bitcoind HTTP {status}")), "{logged}");
        assert!(logged.ends_with(": <html>oops</html>"), "{logged}");
    }
}

#[test]
fn auth_failures_carry_a_hint() {
    assert_eq!(status_hint(401), " (check BITCOIN_RPC_USER / BITCOIN_RPC_PASSWORD)");
    assert_eq!(status_hint(403), " (client not allowed; check bitcoind rpcallowip / rpcbind)");
    assert_eq!(status_hint(500), "");
    let e = http_failure(401, "").unwrap();
    assert_eq!(
        e.source().to_string(),
        "bitcoind HTTP 401 Unauthorized (check BITCOIN_RPC_USER / BITCOIN_RPC_PASSWORD): "
    );
}

#[test]
fn snippets_are_trimmed_and_cut() {
    assert_eq!(body_snippet("  \n hello \t"), "hello");
    let long: String = std::iter::repeat('é').take(300).collect();
    let snippet = body_snippet(&format!("  {long}  "));
    assert_eq!(snippet.chars().count(), 200);
    assert!(snippet.chars().all(|c| c == 'é'));
}

#[test]
fn non_json_replies_are_not_retried() {
    let e = non_json_reply("  <html>proxy</html>");
    assert!(!e.is_retryable());
    assert_eq!(e.kind(), ErrorKind::Unavailable);
    assert_eq!(e.source().to_string(), "bitcoind returned a non-JSON response: <html>proxy</html>");
}

#[test]
fn replies_give_their_result_or_error() {
    let ok = obj(vec![("result", i(840000)), ("error", Json::Null), ("id", s("contextbtc"))]);
    assert_eq!(reply_outcome(&ok), Ok(i(840000)));
    let missing = obj(vec![("id", s("contextbtc"))]);
    assert_eq!(reply_outcome(&missing), Ok(Json::Null));
    let err = obj(vec![
        ("result", Json::Null),
        ("error", obj(vec![("code", i(-5)), ("message", s("not found"))])),
    ]);
    assert_eq!(reply_outcome(&err), Err(obj(vec![("code", i(-5)), ("message", s("not found"))])));
    assert_eq!(reply_outcome(&Json::Array(vec![])), Ok(Json::Null));
}

#[test]
fn request_body_is_a_json_rpc_call() {
    let body = request_body("getblockhash", vec![i(5)]);
    assert_eq!(
        body,
        obj(vec![
            ("jsonrpc", s("2.0")),
            ("id", s("contextbtc")),
            ("method", s("getblockhash")),
            ("params", Json::Array(vec![i(5)])),
        ])
    );
}

#[test]
fn retries_stop_after_the_limit() {
    let transient = RpcCallError::transport(true, anyhow::Error::msg("timeout"));
    let mut policy = RetryPolicy::new();
    let second: u64 = 1_000_000_000;
    for (low, high) in [(second, 2 * second), (2 * second, 4 * second), (4 * second, 8 * second)] {
        let d = policy.next_delay(&transient).expect("a retry is left");
        assert!(low <= d && d < high, "{d}");
    }
    assert!(policy.next_delay(&transient).is_none());
    assert!(policy.next_delay(&transient).is_none());
}

#[test]
fn permanent_errors_are_not_retried() {
    let permanent = RpcCallError::unavailable(false, anyhow::Error::msg("bad auth"));
    let transient = RpcCallError::transport(true, anyhow::Error::msg("timeout"));
    let mut policy = RetryPolicy::new();
    assert!(policy.next_delay(&permanent).is_none());
    // The permanent failure used up no retry.
    for _ in 0..MAX_RETRIES {
        assert!(policy.next_delay(&transient).is_some());
    }
    assert!(policy.next_delay(&transient).is_none());
}

#[test]
fn configuration_defaults() {
    let c = RpcConfig::from_vars(None, None, None, None);
    assert_eq!(c.url, "http://127.0.0.1:8332");
    assert_eq!(c.user, "");
    assert_eq!(c.password, "");
    assert_eq!(c.timeout_secs, 30);
    assert_eq!(c.connect_timeout_secs, 5);

    let c = RpcConfig::from_vars(
        Some("12".to_string()),
        Some("http://node:8332".to_string()),
        Some("alice".to_string()),
        Some("SECRET-REDACTED".to_string()),
    );
    assert_eq!(c.url, "http://node:8332");
    assert_eq!(c.user, "alice");
    assert_eq!(c.password, "SECRET-REDACTED");
    assert_eq!(c.timeout_secs, 12);
}

#[test]
fn bad_timeouts_fall_back_to_the_default() {
    for bad in ["", "abc", " 12", "-3", "1.5", "99999999999999999999999"] {
        assert_eq!(RpcConfig::from_vars(Some(bad.to_string()), None, None, None).timeout_secs, 30, "{bad}");
    }
    assert_eq!(RpcConfig::from_vars(Some("+7".to_string()), None, None, None).timeout_secs, 7);
}

#[test]
fn failure_messages_name_the_status_and_body() {
    assert_eq!(
        http_failure_message(503, "\n Service Unavailable \n"),
        "bitcoind HTTP 503 Service Unavailable: Service Unavailable"
    );
    assert_eq!(
        http_failure_message(403, "denied"),
        "bitcoind HTTP 403 Forbidden (client not allowed; check bitcoind rpcallowip / rpcbind): denied"
    );
    assert_eq!(non_json_message(" ok "), "bitcoind returned a non-JSON response: ok");
}

#[test]
fn a_reply_gives_its_result() {
    assert_eq!(
        reply_of_exchange(200, r#"{"result":1,"error":null,"id":"contextbtc"}"#).ok(),
        Some(i(1))
    );
    assert_eq!(
        reply_of_exchange(200, r#" {"result":{"blocks":840000,"fee":0.5}} "#).ok(),
        Some(obj(vec![
            ("blocks", i(840000)),
            ("fee", Json::Number(JsonNumber::Float(serde_json::Number::from_f64(0.5).unwrap()))),
        ]))
    );
    assert_eq!(reply_of_exchange(200, r#"{"id":1}"#).ok(), Some(Json::Null));
}

#[test]
fn a_failed_status_is_never_read_as_json() {
    let e = reply_of_exchange(500, r#"{"result":null,"error":{"code":-5,"message":"x"}}"#)
        .err()
        .expect("an error");
    assert_eq!(e.kind(), ErrorKind::Unavailable);
    assert!(e.is_retryable());
    let e = reply_of_exchange(401, "nope").err().expect("an error");
    assert!(!e.is_retryable());
    assert_eq!(
        e.source().to_string(),
        "bitcoind HTTP 401 Unauthorized (check BITCOIN_RPC_USER / BITCOIN_RPC_PASSWORD): nope"
    );
}

#[test]
fn a_body_that_is_not_json_is_reported() {
    let e = reply_of_exchange(200, "<html>gateway</html>").err().expect("an error");
    assert_eq!(e.kind(), ErrorKind::Unavailable);
    assert!(!e.is_retryable());
    assert_eq!(
        e.source().to_string(),
        "bitcoind returned a non-JSON response: <html>gateway</html>"
    );
}

#[test]
fn an_error_object_becomes_an_rpc_error() {
    let e = reply_of_exchange(
        200,
        r#"{"result":null,"error":{"message":"Block not found","code":-5},"id":"contextbtc"}"#,
    )
    .err()
    .expect("an error");
    assert_eq!(e.kind(), ErrorKind::Rpc { code: Some(-5) });
    assert!(!e.is_retryable());
    assert_eq!(
        e.source().to_string(),
        r#"bitcoind RPC error: {"code":-5,"message":"Block not found"}"#
    );
    let data = e.into_error_data();
    assert_eq!(data.message, "block or transaction not found");
}

#[test]
fn body_read_failures_are_retried() {
    let e = RpcCallError::body_read_failure(anyhow::Error::msg("connection reset"));
    assert!(e.is_retryable());
    assert_eq!(e.kind(), ErrorKind::Unavailable);
}

#[test]
fn unicode_white_space_is_trimmed() {
    assert_eq!(body_snippet("\u{3000}\u{a0}x y\u{2028}\u{85}"), "x y");
    assert_eq!(body_snippet("\u{200b}x"), "\u{200b}x");
}

#[test]
fn unknown_status_codes_are_shown_as_such() {
    assert_eq!(http_failure_message(599, ""), "bitcoind HTTP 599 <unknown status code>: ");
}

#[test]
fn rpc_error_log_text_keeps_floats_exact() {
    let e = reply_of_exchange(200, r#"{"error":{"code":-1,"fee":0.1,"x":1e-7}}"#)
        .err()
        .expect("an error");
    assert_eq!(e.source().to_string(), r#"bitcoind RPC error: {"code":-1,"fee":0.1,"x":1e-7}"#);
}

#[test]
fn error_data_is_written_as_json_text() {
    assert_eq!(rpc_error_data(Some(-5)).data_text(), Some(r#"{"rpc_code":-5}"#.to_string()));
    assert_eq!(rpc_error_data(None).data_text(), None);
}
