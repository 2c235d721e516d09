use xojo_mcp::protocol::{
    negotiate_protocol_version, ErrorCode, JsonRpcResponse, PROTOCOL_VERSION,
    SUPPORTED_PROTOCOL_VERSIONS,
};
use xojo_mcp::json::Json;

#[test]
fn preferred_version_is_the_newest_supported_one() {
    assert_eq!(
        SUPPORTED_PROTOCOL_VERSIONS.last().copied(),
        Some(PROTOCOL_VERSION)
    );
}

#[test]
fn supported_versions_are_sorted_oldest_first() {
    let mut sorted = SUPPORTED_PROTOCOL_VERSIONS.to_vec();
    sorted.sort_unstable();
    assert_eq!(sorted, SUPPORTED_PROTOCOL_VERSIONS);
}

#[test]
fn a_supported_request_is_echoed_back() {
    for version in SUPPORTED_PROTOCOL_VERSIONS.iter() {
        assert_eq!(negotiate_protocol_version(Some(version)), *version);
    }
}

#[test]
fn an_unsupported_request_falls_back_to_the_preferred_version() {
    for version in ["2026-07-28", "2099-01-01", "2024-01-01", "", "nonsense"] {
        assert_eq!(negotiate_protocol_version(Some(version)), PROTOCOL_VERSION);
    }
}

#[test]
fn a_missing_request_falls_back_to_the_preferred_version() {
    assert_eq!(negotiate_protocol_version(None), PROTOCOL_VERSION);
}

#[test]
fn error_codes_are_the_json_rpc_ones() {
    assert_eq!(ErrorCode::ParseError.code(), -32700);
    assert_eq!(ErrorCode::InvalidRequest.code(), -32600);
    assert_eq!(ErrorCode::MethodNotFound.code(), -32601);
    assert_eq!(ErrorCode::InvalidParams.code(), -32602);
    assert_eq!(ErrorCode::InternalError.code(), -32603);
    assert_eq!(ErrorCode::ServerError.code(), -32000);
}

#[test]
fn responses_carry_either_a_result_or_an_error() {
    let ok = JsonRpcResponse::success(Json::Null, Json::Bool(true));
    assert_eq!(ok.jsonrpc, "2.0");
    assert!(ok.result.is_some() && ok.error.is_none());
    let err = JsonRpcResponse::error(Json::Null, ErrorCode::MethodNotFound, "nope".to_string());
    assert!(err.result.is_none());
    let e = err.error.unwrap();
    assert_eq!(e.code, -32601);
    assert_eq!(e.message, "nope");
}
