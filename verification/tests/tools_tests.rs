use contextbtc::json::{Json, JsonNumber};
use contextbtc::tools::{
    normalize_tool_name, redact_network_info, resolve_tool_name, route_tool_call, tool_output,
    tool_request, tool_text, ToolCall,
};

fn s(v: &str) -> Json {
    Json::String(v.to_string())
}

fn n(v: u64) -> Json {
    Json::Number(JsonNumber::PosInt(v))
}

fn i(v: i64) -> Json {
    Json::Number(JsonNumber::from_i64(v))
}

fn f(x: f64) -> Json {
    Json::Number(JsonNumber::Float(serde_json::Number::from_f64(x).unwrap()))
}

fn obj(entries: Vec<(&str, Json)>) -> Json {
    Json::Object(entries.into_iter().map(|(k, v)| (k.to_string(), v)).collect())
}

fn member<'a>(v: &'a Json, key: &str) -> &'a Json {
    v.get(key).expect("member present")
}

fn keys(v: &Json) -> Vec<String> {
    match v {
        Json::Object(entries) => entries.iter().map(|(k, _)| k.clone()).collect(),
        _ => panic!("not an object"),
    }
}

#[test]
fn normalizes_case_and_underscores() {
    // Bitcoin Core style, snake_case, and mixed case all collapse to the
    // same canonical form.
    assert_eq!(normalize_tool_name("getblockhash"), "getblockhash");
    assert_eq!(normalize_tool_name("get_block_hash"), "getblockhash");
    assert_eq!(normalize_tool_name("getBlockHash"), "getblockhash");
    assert_eq!(normalize_tool_name("GET_BLOCK_HASH"), "getblockhash");
}

#[test]
fn distinct_names_stay_distinct() {
    assert_ne!(
        normalize_tool_name("getblock"),
        normalize_tool_name("getblockheader")
    );
}

fn network(name: &str) -> Json {
    obj(vec![
        ("name", s(name)),
        ("limited", Json::Bool(false)),
        ("reachable", Json::Bool(true)),
        ("proxy", s("127.0.0.1:9050")),
        ("proxy_randomize_credentials", Json::Bool(true)),
    ])
}

fn local_address(address: &str) -> Json {
    obj(vec![("address", s(address)), ("port", n(8333)), ("score", n(4))])
}

#[test]
fn redacts_identifying_network_info() {
    let raw = obj(vec![
        ("version", n(270000)),
        ("subversion", s("/Satoshi:27.0.0/")),
        ("protocolversion", n(70016)),
        ("localservices", s("0000000000000c09")),
        (
            "localservicesnames",
            Json::Array(vec![s("NETWORK"), s("WITNESS"), s("NETWORK_LIMITED"), s("P2P_V2")]),
        ),
        ("localrelay", Json::Bool(true)),
        ("timeoffset", i(-2)),
        ("networkactive", Json::Bool(true)),
        ("connections", n(42)),
        ("connections_in", n(32)),
        ("connections_out", n(10)),
        ("networks", Json::Array(vec![network("ipv4"), network("onion")])),
        ("relayfee", f(0.00001)),
        ("incrementalfee", f(0.00001)),
        (
            "localaddresses",
            Json::Array(vec![
                local_address("203.0.113.7"),
                local_address("exampleonionaddressexampleonionaddressexampleonionaddr.onion"),
            ]),
        ),
        ("warnings", Json::Array(vec![])),
    ]);

    let redacted = redact_network_info(raw.clone());

    assert_eq!(member(&redacted, "localaddresses"), &Json::Array(vec![]));
    match member(&redacted, "networks") {
        Json::Array(networks) => {
            for network in networks {
                assert_eq!(member(network, "proxy"), &s(""));
                assert_eq!(member(network, "proxy_randomize_credentials"), &Json::Bool(false));
            }
        }
        other => panic!("networks is not an array: {other:?}"),
    }
    for key in [
        "connections",
        "connections_in",
        "connections_out",
        "timeoffset",
    ] {
        assert_eq!(member(&redacted, key), &n(0), "{key} not redacted");
    }
    assert_eq!(member(&redacted, "subversion"), &s(""));
    for key in ["version", "relayfee", "incrementalfee", "localrelay"] {
        assert_eq!(member(&redacted, key), member(&raw, key), "{key} changed");
    }

    assert_eq!(keys(&raw), keys(&redacted));
}

#[test]
fn redaction_does_not_add_missing_keys() {
    // Pre-0.21 nodes don't report connections_in / connections_out.
    let redacted = redact_network_info(obj(vec![("version", n(200000)), ("connections", n(8))]));
    assert_eq!(redacted, obj(vec![("version", n(200000)), ("connections", n(0))]));
}

#[test]
fn redaction_leaves_non_objects_alone() {
    let value = Json::Array(vec![n(1), s("proxy")]);
    assert_eq!(redact_network_info(value.clone()), value);
    assert_eq!(redact_network_info(Json::Null), Json::Null);
}

#[test]
fn redaction_is_idempotent() {
    let raw = obj(vec![
        ("subversion", s("/Satoshi:27.0.0/")),
        ("networks", Json::Array(vec![network("ipv4"), n(7)])),
        ("connections", n(3)),
    ]);
    let once = redact_network_info(raw);
    let twice = redact_network_info(once.clone());
    assert_eq!(once, twice);
    // A network entry that is not an object is left as it is.
    match member(&once, "networks") {
        Json::Array(items) => assert_eq!(items[1], n(7)),
        other => panic!("networks is not an array: {other:?}"),
    }
}

#[test]
fn networks_that_is_not_a_list_is_kept() {
    let raw = obj(vec![("networks", s("none")), ("localaddresses", s("x"))]);
    let redacted = redact_network_info(raw);
    assert_eq!(member(&redacted, "networks"), &s("none"));
    assert_eq!(member(&redacted, "localaddresses"), &Json::Array(vec![]));
}

#[test]
fn normalization_lowercases_beyond_ascii() {
    assert_eq!(normalize_tool_name("ÉTAT_Ω"), "étatω");
    assert_eq!(normalize_tool_name("___"), "");
    assert_eq!(normalize_tool_name(""), "");
}

fn routes() -> Vec<String> {
    ["getblock", "getblockhash", "getblockheader", "getblockheader_hex"]
        .iter()
        .map(|r| r.to_string())
        .collect()
}

#[test]
fn exact_route_is_taken_as_is() {
    let requested = "getblockheader_hex".to_string();
    assert_eq!(resolve_tool_name(true, &routes(), &requested), Some(requested.clone()));
}

#[test]
fn aliases_resolve_to_the_canonical_route() {
    for alias in ["get_block_hash", "getBlockHash", "GET_BLOCK_HASH"] {
        assert_eq!(
            resolve_tool_name(false, &routes(), &alias.to_string()),
            Some("getblockhash".to_string())
        );
    }
    assert_eq!(
        resolve_tool_name(false, &routes(), &"GetBlockHeaderHex".to_string()),
        Some("getblockheader_hex".to_string())
    );
}

#[test]
fn first_matching_route_wins() {
    let routes = vec!["get_block".to_string(), "getblock".to_string()];
    assert_eq!(
        resolve_tool_name(false, &routes, &"GETBLOCK".to_string()),
        Some("get_block".to_string())
    );
}

#[test]
fn unknown_tool_is_reported() {
    let requested = "sendrawtransaction".to_string();
    assert_eq!(resolve_tool_name(false, &routes(), &requested), None);
    let err = route_tool_call(false, &routes(), &requested).unwrap_err();
    assert_eq!(err.code, rmcp::model::ErrorCode::INVALID_PARAMS.0);
    assert_eq!(err.message, "tool not found: sendrawtransaction");
    assert_eq!(err.data, Some(obj(vec![("tool", s("sendrawtransaction"))])));
    assert_eq!(
        route_tool_call(false, &routes(), &"get_block".to_string()),
        Ok("getblock".to_string())
    );
}

#[test]
fn tool_requests_fill_in_defaults() {
    let r = tool_request(&ToolCall::GetBlock { blockhash: "00ab".to_string(), verbosity: None });
    assert_eq!(r.method, "getblock");
    assert_eq!(r.params, vec![s("00ab"), n(1)]);

    let r = tool_request(&ToolCall::GetBlockVerbose {
        blockhash: "00ab".to_string(),
        verbosity: Some(2),
    });
    assert_eq!(r.method, "getblock");
    assert_eq!(r.params, vec![s("00ab"), n(2)]);

    let r = tool_request(&ToolCall::GetRawMempool { verbose: None });
    assert_eq!(r.method, "getrawmempool");
    assert_eq!(r.params, vec![Json::Bool(false)]);

    let r = tool_request(&ToolCall::GetBlockHeader { blockhash: "ff".to_string(), verbose: None });
    assert_eq!(r.method, "getblockheader");
    assert_eq!(r.params, vec![s("ff"), Json::Bool(true)]);

    let r = tool_request(&ToolCall::GetBlockHeaderHex { blockhash: "ff".to_string() });
    assert_eq!(r.method, "getblockheader");
    assert_eq!(r.params, vec![s("ff"), Json::Bool(false)]);

    let r = tool_request(&ToolCall::GetBlockFilter { blockhash: "ff".to_string(), filtertype: None });
    assert_eq!(r.method, "getblockfilter");
    assert_eq!(r.params, vec![s("ff"), s("basic")]);

    let r = tool_request(&ToolCall::GetBlockHash { height: 840000 });
    assert_eq!(r.method, "getblockhash");
    assert_eq!(r.params, vec![n(840000)]);

    for (call, method) in [
        (ToolCall::GetBlockchainInfo, "getblockchaininfo"),
        (ToolCall::GetNetworkInfo, "getnetworkinfo"),
        (ToolCall::GetBlockCount, "getblockcount"),
    ] {
        let r = tool_request(&call);
        assert_eq!(r.method, method);
        assert!(r.params.is_empty());
    }
}

#[test]
fn raw_transaction_appends_the_block_hash() {
    let r = tool_request(&ToolCall::GetRawTransaction {
        txid: "aa".to_string(),
        verbosity: Some(0),
        blockhash: None,
    });
    assert_eq!(r.method, "getrawtransaction");
    assert_eq!(r.params, vec![s("aa"), n(0)]);

    let r = tool_request(&ToolCall::GetRawTransaction {
        txid: "aa".to_string(),
        verbosity: None,
        blockhash: Some("bb".to_string()),
    });
    assert_eq!(r.params, vec![s("aa"), n(1), s("bb")]);
}

#[test]
fn only_network_info_is_redacted() {
    let result = obj(vec![("connections", n(5))]);
    assert_eq!(tool_output(&ToolCall::GetBlockchainInfo, result.clone()), result);
    assert_eq!(
        tool_output(&ToolCall::GetNetworkInfo, result),
        obj(vec![("connections", n(0))])
    );
}

#[test]
fn normalized_names_hold_no_underscore_or_capital() {
    for name in ["Get_Block_Hash", "ÉTAT_Ω", "\u{212a}ELVIN", "İ_x"] {
        let n = normalize_tool_name(name);
        assert!(!n.contains('_'), "{n}");
        assert!(!n.chars().any(|c| c.is_ascii_uppercase()), "{n}");
    }
}

#[test]
fn redacted_values_do_not_depend_on_the_node() {
    let a = obj(vec![
        ("subversion", s("/Satoshi:27.0.0/")),
        ("connections", n(42)),
        ("localaddresses", Json::Array(vec![local_address("203.0.113.7")])),
        ("networks", Json::Array(vec![network("ipv4")])),
    ]);
    let b = obj(vec![
        ("subversion", s("/Satoshi:26.1.0(custom)/")),
        ("connections", n(1)),
        ("localaddresses", Json::Array(vec![])),
        (
            "networks",
            Json::Array(vec![obj(vec![
                ("name", s("ipv4")),
                ("limited", Json::Bool(false)),
                ("reachable", Json::Bool(true)),
                ("proxy", s("10.0.0.1:1080")),
                ("proxy_randomize_credentials", Json::Bool(false)),
            ])]),
        ),
    ]);
    assert_eq!(redact_network_info(a), redact_network_info(b));
}

#[test]
fn tools_hand_back_compact_json_text() {
    let result = obj(vec![("connections", n(5)), ("relayfee", f(0.00001)), ("subversion", s("/x/"))]);
    assert_eq!(
        tool_text(&ToolCall::GetNetworkInfo, result.clone()),
        r#"{"connections":0,"relayfee":0.00001,"subversion":""}"#
    );
    assert_eq!(
        tool_text(&ToolCall::GetBlockchainInfo, result),
        r#"{"connections":5,"relayfee":0.00001,"subversion":"/x/"}"#
    );
    assert_eq!(tool_text(&ToolCall::GetBlockCount, n(840000)), "840000");
}
