//! JSON-RPC message model and protocol-version negotiation.

use vstd::prelude::*;
use crate::json::Json;
use crate::settings::lex_order;
use crate::text::str_eq;

verus! {

/// Protocol revisions this server implements, oldest first.
pub const SUPPORTED_PROTOCOL_VERSIONS: [&'static str; 4] = ["2024-11-05", "2025-03-26", "2025-06-18", "2025-11-25"];

/// The revision offered when the client asks for one that is not supported,
/// or names none: the newest supported one.
pub const PROTOCOL_VERSION: &'static str = "2025-11-25";

/// The server's name in `serverInfo`.
pub const SERVER_NAME: &'static str = "xmcp";

/// The server's version in `serverInfo`: the crate's version.
pub const SERVER_VERSION: &'static str = "0.1.0";

/// The supported revisions as character sequences, oldest first.
pub open spec fn supported_versions() -> Seq<Seq<char>> {
    seq![
        "2024-11-05"@,
        "2025-03-26"@,
        "2025-06-18"@,
        "2025-11-25"@,
    ]
}

/// The revision that answers a request for `requested`: the request itself
/// when it is supported, the preferred revision otherwise.
pub open spec fn negotiated(requested: Option<Seq<char>>) -> Seq<char> {
    match requested {
        Some(r) => if supported_versions().contains(r) {
            r
        } else {
            PROTOCOL_VERSION@
        },
        None => PROTOCOL_VERSION@,
    }
}

proof fn lemma_supported_table()
    ensures
        SUPPORTED_PROTOCOL_VERSIONS@.len() == 4,
        forall|i: int|
            0 <= i < 4 ==> #[trigger] SUPPORTED_PROTOCOL_VERSIONS@[i]@ == supported_versions()[i],
        PROTOCOL_VERSION@ == supported_versions()[3],
{
    reveal_strlit("2024-11-05");
    reveal_strlit("2025-03-26");
    reveal_strlit("2025-06-18");
    reveal_strlit("2025-11-25");
}

/// Picks the revision to answer `initialize` with: the client's requested
/// revision when it is supported, the preferred one otherwise.
pub fn negotiate_protocol_version(requested: Option<&str>) -> (r: &'static str)
    ensures
        r@ == negotiated(
            match requested {
                Some(q) => Some(q@),
                None => None,
            },
        ),
{
    proof {
        lemma_supported_table();
    }
    let q = match requested {
        Some(q) => q,
        None => {
            return PROTOCOL_VERSION;
        },
    };
    let table = SUPPORTED_PROTOCOL_VERSIONS;
    let mut i: usize = 0;
    while i < 4
        invariant
            i <= 4,
            requested == Some(q),
            table == SUPPORTED_PROTOCOL_VERSIONS,
            forall|k: int| 0 <= k < i ==> supported_versions()[k] != q@,
            SUPPORTED_PROTOCOL_VERSIONS@.len() == 4,
            forall|k: int|
                0 <= k < 4 ==> #[trigger] SUPPORTED_PROTOCOL_VERSIONS@[k]@ == supported_versions()[k],
        decreases 4 - i,
    {
        let t = table[i];
        if str_eq(t, q) {
            assert(t@ == SUPPORTED_PROTOCOL_VERSIONS@[i as int]@);
            assert(supported_versions()[i as int] == q@);
            assert(supported_versions().contains(q@));
            return t;
        }
        i = i + 1;
    }
    assert(!supported_versions().contains(q@)) by {
        if supported_versions().contains(q@) {
            let k = choose|k: int| 0 <= k < 4 && supported_versions()[k] == q@;
            assert(supported_versions()[k] != q@);
        }
    }
    PROTOCOL_VERSION
}

/// Whatever a client asks for, the negotiated revision is one the server
/// supports; a supported request is echoed back unchanged.
pub proof fn law_negotiation_is_supported(requested: Option<Seq<char>>)
    ensures
        supported_versions().contains(negotiated(requested)),
        match requested {
            Some(r) => supported_versions().contains(r) ==> negotiated(requested) == r,
            None => negotiated(requested) == PROTOCOL_VERSION@,
        },
{
    reveal_strlit("2025-11-25");
    assert(supported_versions()[3] == PROTOCOL_VERSION@);
}

/// The supported revisions are listed oldest first, each date string
/// ordered before the next by character code; the preferred revision is the
/// last and newest of them, so no negotiated revision is newer than the one
/// offered by default.
pub proof fn law_preferred_is_newest(requested: Option<Seq<char>>)
    ensures
        forall|i: int, j: int|
            0 <= i < j < 4 ==> lex_order(#[trigger] supported_versions()[i], #[trigger] supported_versions()[j])
                < 0,
        PROTOCOL_VERSION@ == supported_versions().last(),
        negotiated(None) == PROTOCOL_VERSION@,
        lex_order(negotiated(requested), negotiated(None)) <= 0,
{
    reveal_strlit("2024-11-05");
    reveal_strlit("2025-03-26");
    reveal_strlit("2025-06-18");
    reveal_strlit("2025-11-25");
    let v = supported_versions();
    reveal_with_fuel(lex_order, 12);
    assert(lex_order(v[0], v[1]) < 0);
    assert(lex_order(v[1], v[2]) < 0);
    assert(lex_order(v[2], v[3]) < 0);
    assert(lex_order(v[0], v[2]) < 0);
    assert(lex_order(v[0], v[3]) < 0);
    assert(lex_order(v[1], v[3]) < 0);
    assert(lex_order(v[3], v[3]) == 0);
    law_negotiation_is_supported(requested);
    let n = negotiated(requested);
    assert(v.contains(n));
    let k = choose|k: int| 0 <= k < v.len() && v[k] == n;
    assert(k == 0 || k == 1 || k == 2 || k == 3);
}

/// JSON-RPC error codes.
#[derive(Debug, Clone, Copy, PartialEq, Eq, Structural)]
pub enum ErrorCode {
    ParseError,
    InvalidRequest,
    MethodNotFound,
    InvalidParams,
    InternalError,
    ServerError,
}

/// The numeric JSON-RPC code of an error kind.
pub open spec fn code_of(c: ErrorCode) -> i32 {
    match c {
        ErrorCode::ParseError => -32700i32,
        ErrorCode::InvalidRequest => -32600i32,
        ErrorCode::MethodNotFound => -32601i32,
        ErrorCode::InvalidParams => -32602i32,
        ErrorCode::InternalError => -32603i32,
        ErrorCode::ServerError => -32000i32,
    }
}

impl ErrorCode {
    /// The numeric JSON-RPC code.
    pub fn code(self) -> (r: i32)
        ensures
            r == code_of(self),
    {
        match self {
            ErrorCode::ParseError => -32700,
            ErrorCode::InvalidRequest => -32600,
            ErrorCode::MethodNotFound => -32601,
            ErrorCode::InvalidParams => -32602,
            ErrorCode::InternalError => -32603,
            ErrorCode::ServerError => -32000,
        }
    }
}

/// A JSON-RPC request. A member that is absent, or `null`, is `None`.
#[derive(Debug)]
pub struct JsonRpcRequest {
    pub id: Option<Json>,
    pub method: Option<String>,
    pub params: Option<Json>,
}

/// The `error` member of a response.
#[derive(Debug)]
pub struct JsonRpcError {
    pub code: i32,
    pub message: String,
}

/// A JSON-RPC response: exactly one of `result` and `error` is present.
#[derive(Debug)]
pub struct JsonRpcResponse {
    pub jsonrpc: &'static str,
    pub id: Json,
    pub result: Option<Json>,
    pub error: Option<JsonRpcError>,
}

impl JsonRpcResponse {
    /// A success response carrying `result`.
    pub fn success(id: Json, result: Json) -> (r: Self)
        ensures
            r.jsonrpc@ == "2.0"@,
            r.id == id,
            r.result == Some(result),
            r.error is None,
    {
        JsonRpcResponse { jsonrpc: "2.0", id, result: Some(result), error: None }
    }

    /// An error response with the code of `code` and `message`.
    pub fn error(id: Json, code: ErrorCode, message: String) -> (r: Self)
        ensures
            r.jsonrpc@ == "2.0"@,
            r.id == id,
            r.result is None,
            r.error matches Some(e) && e.code == code_of(code) && e.message == message,
    {
        JsonRpcResponse {
            jsonrpc: "2.0",
            id,
            result: None,
            error: Some(JsonRpcError { code: code.code(), message }),
        }
    }
}

} // verus!
