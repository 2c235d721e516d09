use xojo_mcp::catalog::all_tools;
use xojo_mcp::json::{Json, JsonNumber};
use xojo_mcp::protocol::{JsonRpcRequest, JsonRpcResponse, PROTOCOL_VERSION, SERVER_NAME, SERVER_VERSION};
use xojo_mcp::server::{Dispatch, Server};
use xojo_mcp::settings::is_truthy;
use xojo_mcp::tool::{compatible, tool_to_json, validate_arguments, ParamType, ToolResult};

/// The tools read-only mode must hide and reject.
const MUTATING: &[&str] = &[
    "set_code",
    "edit_code",
    "set_selected_text",
    "create_project_item",
    "revert_project",
    "save_project",
];

const PREFERRED: &str = "2025-11-25";
const SUPPORTED: &[&str] = &["2024-11-05", "2025-03-26", "2025-06-18", "2025-11-25"];

fn server(read_only: bool) -> Server {
    Server::new(all_tools(), read_only)
}

fn text(s: &str) -> Json {
    Json::String(s.to_string())
}

fn obj(pairs: Vec<(&str, Json)>) -> Json {
    Json::Object(pairs.into_iter().map(|(k, v)| (k.to_string(), v)).collect())
}

fn request(id: i64, method: &str, params: Option<Json>) -> JsonRpcRequest {
    JsonRpcRequest {
        id: Some(Json::Number(JsonNumber::PosInt(id as u64))),
        method: Some(method.to_string()),
        params,
    }
}

fn respond(d: Dispatch) -> JsonRpcResponse {
    match d {
        Dispatch::Respond(r) => r,
        _ => panic!("expected a response"),
    }
}

fn member<'a>(j: &'a Json, key: &str) -> &'a Json {
    j.get(key).unwrap_or_else(|| panic!("no member {key}"))
}

fn names(s: &Server) -> Vec<String> {
    let list = s.tools_list();
    let tools = member(&list, "tools").as_array().unwrap();
    tools
        .iter()
        .map(|t| member(t, "name").as_str().unwrap().clone())
        .collect()
}

fn handshake(s: &Server, requested: Option<&str>) -> String {
    let params = match requested {
        Some(v) => obj(vec![("protocolVersion", text(v)), ("capabilities", obj(vec![]))]),
        None => obj(vec![("capabilities", obj(vec![]))]),
    };
    let r = respond(s.handle_request(request(1, "initialize", Some(params))));
    let result = r.result.unwrap();
    member(&result, "protocolVersion").as_str().unwrap().clone()
}

#[test]
fn read_write_mode_lists_all_tools() {
    let names = names(&server(false));
    assert_eq!(names.len(), all_tools().len());
    for m in MUTATING {
        assert!(names.contains(&m.to_string()), "{m} should be listed");
    }
}

#[test]
fn read_only_mode_hides_exactly_the_mutating_tools() {
    let names = names(&server(true));
    assert_eq!(names.len(), all_tools().len() - MUTATING.len());
    for m in MUTATING {
        assert!(!names.contains(&m.to_string()), "{m} must be hidden");
    }
    assert!(names.contains(&"get_code".to_string()));
}

#[test]
fn read_only_mode_rejects_a_mutating_call() {
    let req = request(
        1,
        "tools/call",
        Some(obj(vec![("name", text("set_code")), ("arguments", obj(vec![]))])),
    );
    let resp = respond(server(true).handle_request(req));
    let err = resp.error.expect("call should be rejected");
    assert_eq!(err.code, -32600);
    assert!(err.message.contains("read-only"));
}

#[test]
fn read_only_mode_allows_a_read_call_through() {
    let req = request(
        1,
        "tools/call",
        Some(obj(vec![("name", text("get_code")), ("arguments", obj(vec![]))])),
    );
    match server(true).handle_request(req) {
        Dispatch::RunTool { tool, arguments, .. } => {
            assert_eq!(all_tools()[tool].name, "get_code");
            assert!(arguments.is_empty());
        }
        _ => panic!("the read call must get past the read-only gate"),
    }
}

#[test]
fn a_supported_version_is_echoed_back() {
    for version in SUPPORTED {
        assert_eq!(handshake(&server(false), Some(version)), *version);
    }
}

#[test]
fn an_unsupported_version_gets_the_preferred_one() {
    for version in ["2026-07-28", "2099-01-01", "2020-01-01"] {
        assert_eq!(handshake(&server(false), Some(version)), PREFERRED);
    }
}

#[test]
fn a_handshake_without_a_version_gets_the_preferred_one() {
    assert_eq!(handshake(&server(false), None), PREFERRED);
    assert_eq!(PROTOCOL_VERSION, PREFERRED);
}

#[test]
fn initialize_reports_the_capabilities_it_serves() {
    let r = respond(server(false).handle_request(request(1, "initialize", None)));
    let result = r.result.unwrap();
    let caps = member(&result, "capabilities");
    assert!(matches!(member(caps, "tools"), Json::Object(_)));
    assert!(matches!(member(caps, "resources"), Json::Object(_)));
    let info = member(&result, "serverInfo");
    assert_eq!(member(info, "name").as_str().unwrap(), SERVER_NAME);
    assert_eq!(member(info, "version").as_str().unwrap(), SERVER_VERSION);
    assert_eq!(SERVER_VERSION, "0.1.0");
}

#[test]
fn every_listed_tool_has_a_usable_schema() {
    let list = server(false).tools_list();
    let tools = member(&list, "tools").as_array().unwrap();
    assert!(!tools.is_empty());
    for tool in tools {
        assert!(!member(tool, "description").as_str().unwrap().is_empty());
        let schema = member(tool, "inputSchema");
        assert_eq!(member(schema, "type").as_str().unwrap(), "object");
        assert!(matches!(member(schema, "properties"), Json::Object(_)));
        assert!(matches!(member(schema, "required"), Json::Array(_)));
    }
}

#[test]
fn a_tool_schema_lists_its_parameters() {
    let tools = all_tools();
    let log = tools.iter().find(|t| t.name == "get_system_log").unwrap();
    let j = tool_to_json(log);
    assert_eq!(
        j.to_text(),
        "{\"name\":\"get_system_log\",\"description\":\"Reads recent System.DebugLog output from the macOS unified log for a running Xojo debug app (process name = app name + '.debug').\",\"inputSchema\":{\"type\":\"object\",\"properties\":{\"process_name\":{\"type\":\"string\",\"description\":\"Process name filter (e.g. 'MyApp.debug')\"},\"seconds\":{\"type\":\"integer\",\"description\":\"How many seconds back to search (default 60, max 3600)\"}},\"required\":[\"process_name\"]}}"
    );
}

#[test]
fn ping_returns_an_empty_result() {
    let r = respond(server(false).handle_request(request(5, "ping", None)));
    assert!(matches!(r.result, Some(Json::Object(ref m)) if m.is_empty()));
    assert!(r.error.is_none());
    assert!(matches!(r.id, Json::Number(JsonNumber::PosInt(5))));
}

#[test]
fn an_unknown_method_is_a_method_not_found_error() {
    let r = respond(server(false).handle_request(request(2, "prompts/list", None)));
    let e = r.error.unwrap();
    assert_eq!(e.code, -32601);
    assert_eq!(e.message, "Method not found: prompts/list");
}

#[test]
fn a_notification_draws_no_response() {
    let note = JsonRpcRequest {
        id: None,
        method: Some("notifications/cancelled".to_string()),
        params: Some(obj(vec![("requestId", Json::Number(JsonNumber::PosInt(1)))])),
    };
    assert!(matches!(server(false).handle_request(note), Dispatch::NoReply));
}

#[test]
fn a_request_without_id_is_refused() {
    let req = JsonRpcRequest { id: None, method: Some("ping".to_string()), params: None };
    let r = respond(server(false).handle_request(req));
    assert!(matches!(r.id, Json::Null));
    let e = r.error.unwrap();
    assert_eq!(e.code, -32600);
    assert_eq!(e.message, "Missing `id` in request.");
    let req = JsonRpcRequest { id: Some(Json::Number(JsonNumber::PosInt(3))), method: None, params: None };
    assert_eq!(
        respond(server(false).handle_request(req)).error.unwrap().message,
        "Missing `method` key in JSON request."
    );
}

#[test]
fn resources_are_handed_to_the_caller() {
    assert!(matches!(
        server(false).handle_request(request(1, "resources/list", None)),
        Dispatch::ListResources { .. }
    ));
    match server(false).handle_request(request(
        1,
        "resources/read",
        Some(obj(vec![("uri", text("file://usage-guide.md"))])),
    )) {
        Dispatch::ReadResource { uri, .. } => assert_eq!(uri, "file://usage-guide.md"),
        _ => panic!("expected a resource read"),
    }
}

#[test]
fn tool_calls_are_checked_before_they_run() {
    let s = server(false);
    let call = |params: Option<Json>| respond(s.handle_request(request(9, "tools/call", params))).error.unwrap();
    let e = call(None);
    assert_eq!((e.code, e.message.as_str()), (-32600, "Missing `params` key in request."));
    let e = call(Some(obj(vec![])));
    assert_eq!((e.code, e.message.as_str()), (-32600, "Missing tool `name` in params."));
    let e = call(Some(obj(vec![("name", text("nope"))])));
    assert_eq!((e.code, e.message.as_str()), (-32601, "There is no tool named `nope`."));
    let e = call(Some(obj(vec![("name", text("get_code")), ("arguments", text("x"))])));
    assert_eq!((e.code, e.message.as_str()), (-32602, "The `arguments` value is not a valid object."));
    let e = call(Some(obj(vec![("name", text("select_project_item")), ("arguments", obj(vec![]))])));
    assert_eq!((e.code, e.message.as_str()), (-32602, "Missing the required `item_path` parameter."));
    let e = call(Some(obj(vec![
        ("name", text("build_project")),
        ("arguments", obj(vec![("build_type", text("5"))])),
    ])));
    assert_eq!(
        e.message,
        "Wrong parameter type for parameter named `build_type`. Expected integer but received string."
    );
    let e = call(Some(obj(vec![
        ("name", text("run_project")),
        ("arguments", obj(vec![("x", Json::Null), ("y", Json::Bool(true))])),
    ])));
    assert_eq!(e.message, "Unexpected parameters (`x`, `y`) passed to `run_project` tool.");
}

#[test]
fn null_arguments_count_as_absent() {
    let tools = all_tools();
    let get_code = tools.iter().find(|t| t.name == "get_code").unwrap();
    let args = vec![("location".to_string(), Json::Null)];
    assert_eq!(validate_arguments(get_code, &args), Ok(()));
    let sys = tools.iter().find(|t| t.name == "get_system_log").unwrap();
    let args = vec![("process_name".to_string(), Json::Null)];
    assert_eq!(
        validate_arguments(sys, &args),
        Err("Missing the required `process_name` parameter.".to_string())
    );
}

#[test]
fn a_number_parameter_takes_an_integer() {
    assert!(compatible(ParamType::Number, ParamType::Integer));
    assert!(!compatible(ParamType::Integer, ParamType::Number));
    assert!(compatible(ParamType::String, ParamType::String));
}

#[test]
fn tool_results_become_text_content() {
    let ok = Server::tool_response(Json::Null, &ToolResult::success("done".to_string()));
    assert_eq!(
        ok.result.unwrap().to_text(),
        "{\"content\":[{\"type\":\"text\",\"text\":\"done\"}]}"
    );
    let failed = Server::tool_response(Json::Null, &ToolResult::failure("bad".to_string()));
    assert_eq!(
        failed.result.unwrap().to_text(),
        "{\"content\":[{\"type\":\"text\",\"text\":\"bad\"}],\"isError\":true}"
    );
}

#[test]
fn read_only_mode_hides_the_mutating_tools() {
    let server = Server::new(all_tools(), is_truthy("1"));
    let names = names(&server);
    for tool in MUTATING {
        assert!(!names.contains(&tool.to_string()), "{tool} must be hidden");
    }
    assert!(names.contains(&"get_code".to_string()), "read tools must still be listed");
}

#[test]
fn a_mutating_call_is_refused_in_read_only_mode() {
    let server = Server::new(all_tools(), is_truthy("1"));
    for tool in MUTATING {
        let req = request(
            4,
            "tools/call",
            Some(obj(vec![("name", text(tool)), ("arguments", obj(vec![]))])),
        );
        let resp = respond(server.handle_request(req));
        let err = resp.error.expect("expected an InvalidRequest error");
        assert_eq!(err.code, -32600);
        assert_eq!(
            err.message,
            format!("The `{tool}` tool modifies the project and is disabled because xmcp is running in read-only mode.")
        );
    }
}

#[test]
fn a_null_id_is_an_id() {
    let req = JsonRpcRequest { id: Some(Json::Null), method: Some("ping".to_string()), params: None };
    let r = respond(server(false).handle_request(req));
    assert!(matches!(r.id, Json::Null));
    assert!(r.error.is_none());
    assert!(r.result.is_some());
}

#[test]
fn null_params_lack_a_tool_name() {
    let r = respond(server(false).tools_call(Json::Number(JsonNumber::PosInt(4)), Some(Json::Null)));
    let e = r.error.unwrap();
    assert_eq!(e.code, -32600);
    assert_eq!(e.message, "Missing tool `name` in params.");
    let r = respond(server(false).tools_call(Json::Number(JsonNumber::PosInt(5)), None));
    assert_eq!(r.error.unwrap().message, "Missing `params` key in request.");
}
