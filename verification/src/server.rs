//! The request handling of the MCP server: which answer each JSON-RPC
//! request gets, which tools are offered, and which tool calls may run.

use vstd::prelude::*;
use crate::json::{
    Json, JsonView, as_str, as_str_opt, entries_view, get, get_opt, items_view, lemma_entries_view,
    lemma_items_view,
};
use crate::protocol::{
    ErrorCode, JsonRpcRequest, JsonRpcResponse, PROTOCOL_VERSION, SERVER_NAME, SERVER_VERSION, code_of,
    negotiate_protocol_version, negotiated,
};
use crate::text::{contains, push_str, starts_with, str_eq, str_starts_with, to_owned_string};
use crate::tool::{ToolInfo, ToolResult, tool_json, tool_to_json, validate_arguments, validation};

verus! {

/// The server's fixed configuration: the tools it offers and whether it
/// runs read-only.
pub struct Server {
    pub tools: Vec<ToolInfo>,
    pub read_only: bool,
}

/// What the server does with one request.
pub enum Dispatch {
    /// Send this response.
    Respond(JsonRpcResponse),
    /// Run tool number `tool` with `arguments`, then answer `id` with its
    /// result (see [`Server::tool_response`]).
    RunTool { id: Json, tool: usize, arguments: Vec<(String, Json)> },
    /// Answer `id` with the list of resources.
    ListResources { id: Json },
    /// Answer `id` with the resource at `uri`.
    ReadResource { id: Json, uri: String },
    /// Send nothing (a notification).
    NoReply,
}

/// The mathematical form of a [`Dispatch`].
pub enum Answer {
    Reply(JsonView, Result<JsonView, (i32, Seq<char>)>),
    Run(JsonView, int, Seq<(Seq<char>, JsonView)>),
    ListResources(JsonView),
    ReadResource(JsonView, Seq<char>),
    Silent,
}

/// The answer an exec [`Dispatch`] stands for.
pub open spec fn answer_of(d: Dispatch) -> Answer {
    match d {
        Dispatch::Respond(r) => Answer::Reply(
            r.id@,
            match r.result {
                Some(v) => Ok(v@),
                None => match r.error {
                    Some(e) => Err((e.code, e.message@)),
                    None => Err((0i32, Seq::empty())),
                },
            },
        ),
        Dispatch::RunTool { id, tool, arguments } => Answer::Run(id@, tool as int, entries_view(arguments@)),
        Dispatch::ListResources { id } => Answer::ListResources(id@),
        Dispatch::ReadResource { id, uri } => Answer::ReadResource(id@, uri@),
        Dispatch::NoReply => Answer::Silent,
    }
}

/// A well-formed response: version `"2.0"` and exactly one of `result`
/// and `error`.
pub open spec fn well_formed(d: Dispatch) -> bool {
    match d {
        Dispatch::Respond(r) => r.jsonrpc@ == "2.0"@ && (r.result is Some) != (r.error is Some),
        _ => true,
    }
}

/// The error answer with `code` and `message`.
pub open spec fn refuse(id: JsonView, code: ErrorCode, message: Seq<char>) -> Answer {
    Answer::Reply(id, Err((code_of(code), message)))
}

/// A tool of the list is blocked: the server is read-only and the tool
/// changes the project.
pub open spec fn blocked(read_only: bool, t: ToolInfo) -> bool {
    read_only && t.mutates
}

/// `k` is the first tool named `name`.
pub open spec fn first_tool_at(tools: Seq<ToolInfo>, name: Seq<char>, k: int) -> bool {
    0 <= k < tools.len() && tools[k].name@ == name && forall|j: int|
        0 <= j < k ==> tools[j].name@ != name
}

/// The first tool named `name`, if any.
pub open spec fn find_tool(tools: Seq<ToolInfo>, name: Seq<char>) -> Option<int> {
    if exists|k: int| first_tool_at(tools, name, k) {
        Some(choose|k: int| first_tool_at(tools, name, k))
    } else {
        None
    }
}

/// The descriptions of the tools that are not blocked, in order.
pub open spec fn listed(tools: Seq<ToolInfo>, read_only: bool) -> Seq<JsonView>
    decreases tools.len(),
{
    if tools.len() == 0 {
        Seq::empty()
    } else {
        let rest = listed(tools.drop_last(), read_only);
        if blocked(read_only, tools.last()) {
            rest
        } else {
            rest.push(tool_json(tools.last()))
        }
    }
}

/// The result of `tools/list`.
pub open spec fn tools_list_result(tools: Seq<ToolInfo>, read_only: bool) -> JsonView {
    JsonView::Object(seq![("tools"@, JsonView::Array(listed(tools, read_only)))])
}

/// The result of `initialize` for the given request parameters.
pub open spec fn initialize_result(params: Option<JsonView>) -> JsonView {
    JsonView::Object(
        seq![
            (
                "protocolVersion"@,
                JsonView::String(negotiated(as_str_opt(get_opt(params, "protocolVersion"@)))),
            ),
            (
                "capabilities"@,
                JsonView::Object(
                    seq![("tools"@, JsonView::Object(Seq::empty())), ("resources"@, JsonView::Object(Seq::empty()))],
                ),
            ),
            (
                "serverInfo"@,
                JsonView::Object(
                    seq![("name"@, JsonView::String(SERVER_NAME@)), ("version"@, JsonView::String(SERVER_VERSION@))],
                ),
            ),
        ],
    )
}

/// The message refusing a tool that read-only mode blocks.
pub open spec fn read_only_message(name: Seq<char>) -> Seq<char> {
    "The `"@ + name + "` tool modifies the project and is disabled because xmcp is running in read-only mode."@
}

/// The answer to `tools/call` with parameters `params`.
pub open spec fn call_answer(
    tools: Seq<ToolInfo>,
    read_only: bool,
    id: JsonView,
    params: Option<JsonView>,
) -> Answer {
    match params {
        None => refuse(id, ErrorCode::InvalidRequest, "Missing `params` key in request."@),
        Some(p) => match as_str_opt(get(p, "name"@)) {
            None => refuse(id, ErrorCode::InvalidRequest, "Missing tool `name` in params."@),
            Some(name) => match find_tool(tools, name) {
                None => refuse(
                    id,
                    ErrorCode::MethodNotFound,
                    "There is no tool named `"@ + name + "`."@,
                ),
                Some(k) => if blocked(read_only, tools[k]) {
                    refuse(id, ErrorCode::InvalidRequest, read_only_message(name))
                } else {
                    let args = match get(p, "arguments"@) {
                        Some(JsonView::Object(entries)) => Some(entries),
                        Some(_) => None,
                        None => Some(Seq::empty()),
                    };
                    match args {
                        None => refuse(
                            id,
                            ErrorCode::InvalidParams,
                            "The `arguments` value is not a valid object."@,
                        ),
                        Some(entries) => match validation(tools[k], entries) {
                            Err(m) => refuse(id, ErrorCode::InvalidParams, m),
                            Ok(()) => Answer::Run(id, k, entries),
                        },
                    }
                },
            },
        },
    }
}

/// The answer to a request with `id`, `method` and `params`.
pub open spec fn answer(
    tools: Seq<ToolInfo>,
    read_only: bool,
    id: Option<JsonView>,
    method: Option<Seq<char>>,
    params: Option<JsonView>,
) -> Answer {
    let notification = match method {
        Some(m) => starts_with(m, "notifications/"@),
        None => false,
    };
    let idv = match id {
        Some(v) => v,
        None => JsonView::Null,
    };
    if id is None && !notification {
        refuse(JsonView::Null, ErrorCode::InvalidRequest, "Missing `id` in request."@)
    } else {
        match method {
            None => refuse(idv, ErrorCode::InvalidRequest, "Missing `method` key in JSON request."@),
            Some(m) => if m == "initialize"@ {
                Answer::Reply(idv, Ok(initialize_result(params)))
            } else if m == "tools/list"@ {
                Answer::Reply(idv, Ok(tools_list_result(tools, read_only)))
            } else if m == "tools/call"@ {
                call_answer(tools, read_only, idv, params)
            } else if m == "resources/list"@ {
                Answer::ListResources(idv)
            } else if m == "resources/read"@ {
                Answer::ReadResource(
                    idv,
                    match as_str_opt(get_opt(params, "uri"@)) {
                        Some(u) => u,
                        None => Seq::empty(),
                    },
                )
            } else if m == "ping"@ {
                Answer::Reply(idv, Ok(JsonView::Object(Seq::empty())))
            } else if notification {
                Answer::Silent
            } else {
                refuse(idv, ErrorCode::MethodNotFound, "Method not found: "@ + m)
            },
        }
    }
}

/// The view of an optional value.
pub open spec fn opt_view(v: Option<Json>) -> Option<JsonView> {
    match v {
        Some(j) => Some(j@),
        None => None,
    }
}

/// The view of an optional string.
pub open spec fn opt_str(v: Option<String>) -> Option<Seq<char>> {
    match v {
        Some(s) => Some(s@),
        None => None,
    }
}

fn refusal(id: Json, code: ErrorCode, message: String) -> (d: Dispatch)
    ensures
        answer_of(d) == refuse(id@, code, message@),
        well_formed(d),
{
    Dispatch::Respond(JsonRpcResponse::error(id, code, message))
}

fn reply(id: Json, result: Json) -> (d: Dispatch)
    ensures
        answer_of(d) == Answer::Reply(id@, Ok::<JsonView, (i32, Seq<char>)>(result@)),
        well_formed(d),
{
    Dispatch::Respond(JsonRpcResponse::success(id, result))
}

fn empty_object() -> (r: Json)
    ensures
        r@ == JsonView::Object(Seq::empty()),
{
    let v: Vec<(String, Json)> = Vec::new();
    assert(entries_view(v@) =~= Seq::empty());
    Json::object(v)
}

/// The result of `tools/call` carrying a tool's result: one text content
/// block, and `isError` when the tool failed.
pub open spec fn tool_result_json(output: Seq<char>, is_error: bool) -> JsonView {
    JsonView::Object(
        seq![
            (
                "content"@,
                JsonView::Array(
                    seq![JsonView::Object(seq![("type"@, JsonView::String("text"@)), ("text"@, JsonView::String(output))])],
                ),
            ),
        ] + if is_error {
            seq![("isError"@, JsonView::Bool(true))]
        } else {
            Seq::empty()
        },
    )
}

impl Server {
    /// The response to `tools/call` once the tool has run: its text in one
    /// content block, flagged with `isError` when it failed.
    pub fn tool_response(id: Json, result: &ToolResult) -> (r: JsonRpcResponse)
        ensures
            r.jsonrpc@ == "2.0"@,
            r.id == id,
            r.error is None,
            r.result matches Some(v) && v@ == tool_result_json(result.output@, result.is_error),
    {
        let mut block: Vec<(String, Json)> = Vec::new();
        block.push((to_owned_string("type"), Json::text("text")));
        block.push((to_owned_string("text"), Json::String(result.output.clone())));
        proof {
            lemma_entries_view(block@);
        }
        let mut content: Vec<Json> = Vec::new();
        content.push(Json::object(block));
        proof {
            lemma_items_view(content@);
        }
        let mut top: Vec<(String, Json)> = Vec::new();
        top.push((to_owned_string("content"), Json::Array(content)));
        if result.is_error {
            top.push((to_owned_string("isError"), Json::Bool(true)));
        }
        proof {
            lemma_entries_view(top@);
            assert(entries_view(block@) =~= seq![("type"@, JsonView::String("text"@)), ("text"@, JsonView::String(result.output@))]);
            assert(items_view(content@) =~= seq![JsonView::Object(entries_view(block@))]);
        }
        let v = Json::object(top);
        assert(entries_view(top@) =~= match tool_result_json(result.output@, result.is_error) {
            JsonView::Object(e) => e,
            _ => Seq::empty(),
        });
        JsonRpcResponse::success(id, v)
    }

    /// A server offering `tools`, read-only when `read_only` is set.
    pub fn new(tools: Vec<ToolInfo>, read_only: bool) -> (s: Self)
        ensures
            s.tools == tools,
            s.read_only == read_only,
    {
        Server { tools, read_only }
    }

    /// Whether `tool` is hidden and refused in this mode: a tool that
    /// changes the project, on a read-only server.
    pub fn is_blocked(&self, tool: &ToolInfo) -> (r: bool)
        ensures
            r == blocked(self.read_only, *tool),
    {
        self.read_only && tool.mutates
    }

    /// The result of `tools/list`: the descriptions of the tools that are
    /// not blocked, in order.
    pub fn tools_list(&self) -> (r: Json)
        ensures
            r@ == tools_list_result(self.tools@, self.read_only),
    {
        let mut items: Vec<Json> = Vec::new();
        let mut i: usize = 0;
        while i < self.tools.len()
            invariant
                i <= self.tools.len(),
                items_view(items@) == listed(self.tools@.take(i as int), self.read_only),
            decreases self.tools.len() - i,
        {
            let ghost before = items@;
            proof {
                assert(self.tools@.take(i + 1).drop_last() =~= self.tools@.take(i as int));
            }
            if !self.is_blocked(&self.tools[i]) {
                items.push(tool_to_json(&self.tools[i]));
                assert(items@.drop_last() =~= before);
            }
            i = i + 1;
        }
        assert(self.tools@.take(self.tools.len() as int) =~= self.tools@);
        let mut top: Vec<(String, Json)> = Vec::new();
        top.push((to_owned_string("tools"), Json::Array(items)));
        proof {
            lemma_entries_view(top@);
        }
        let r = Json::object(top);
        assert(entries_view(top@) =~= seq![("tools"@, JsonView::Array(listed(self.tools@, self.read_only)))]);
        r
    }

    /// The result of `initialize`: the negotiated protocol revision, the
    /// capabilities (tools and resources), and the server's name and version.
    pub fn initialize_result(params: &Option<Json>) -> (r: Json)
        ensures
            r@ == initialize_result(opt_view(*params)),
    {
        let requested: Option<&str> = match params {
            Some(p) => match p.get("protocolVersion") {
                Some(v) => match v.as_str() {
                    Some(s) => Some(s.as_str()),
                    None => None,
                },
                None => None,
            },
            None => None,
        };
        let version = negotiate_protocol_version(requested);
        let mut caps: Vec<(String, Json)> = Vec::new();
        caps.push((to_owned_string("tools"), empty_object()));
        caps.push((to_owned_string("resources"), empty_object()));
        let mut info: Vec<(String, Json)> = Vec::new();
        info.push((to_owned_string("name"), Json::text(SERVER_NAME)));
        info.push((to_owned_string("version"), Json::text(SERVER_VERSION)));
        let mut top: Vec<(String, Json)> = Vec::new();
        top.push((to_owned_string("protocolVersion"), Json::text(version)));
        top.push((to_owned_string("capabilities"), Json::object(caps)));
        top.push((to_owned_string("serverInfo"), Json::object(info)));
        proof {
            lemma_entries_view(caps@);
            lemma_entries_view(info@);
            lemma_entries_view(top@);
            assert(entries_view(caps@) =~= seq![("tools"@, JsonView::Object(Seq::empty())), ("resources"@, JsonView::Object(Seq::empty()))]);
            assert(entries_view(info@) =~= seq![("name"@, JsonView::String(SERVER_NAME@)), ("version"@, JsonView::String(SERVER_VERSION@))]);
        }
        let r = Json::object(top);
        assert(entries_view(top@) =~= match initialize_result(opt_view(*params)) {
            JsonView::Object(e) => e,
            _ => Seq::empty(),
        });
        r
    }

    fn find_tool(&self, name: &str) -> (r: Option<usize>)
        ensures
            match r {
                Some(k) => find_tool(self.tools@, name@) == Some(k as int),
                None => find_tool(self.tools@, name@) is None,
            },
    {
        let mut i: usize = 0;
        while i < self.tools.len()
            invariant
                i <= self.tools.len(),
                forall|j: int| 0 <= j < i ==> self.tools@[j].name@ != name@,
            decreases self.tools.len() - i,
        {
            if str_eq(self.tools[i].name, name) {
                proof {
                    assert(first_tool_at(self.tools@, name@, i as int));
                    let c = choose|k: int| first_tool_at(self.tools@, name@, k);
                    if c < i {
                        assert(self.tools@[c].name@ != name@);
                    } else if c > i {
                        assert(self.tools@[i as int].name@ != name@);
                    }
                }
                return Some(i);
            }
            i = i + 1;
        }
        proof {
            if exists|k: int| first_tool_at(self.tools@, name@, k) {
                let c = choose|k: int| first_tool_at(self.tools@, name@, k);
                assert(self.tools@[c].name@ != name@);
            }
        }
        None
    }

    /// The decision on a `tools/call` request: a refusal, or the tool to
    /// run and its arguments.
    pub fn tools_call(&self, id: Json, params: Option<Json>) -> (d: Dispatch)
        ensures
            answer_of(d) == call_answer(self.tools@, self.read_only, id@, opt_view(params)),
            well_formed(d),
    {
        let p = match params {
            Some(p) => p,
            None => {
                return refusal(id, ErrorCode::InvalidRequest, to_owned_string("Missing `params` key in request."));
            },
        };
        let name: String = match p.get("name") {
            Some(n) => match n.as_str() {
                Some(s) => s.clone(),
                None => {
                    return refusal(id, ErrorCode::InvalidRequest, to_owned_string("Missing tool `name` in params."));
                },
            },
            None => {
                return refusal(id, ErrorCode::InvalidRequest, to_owned_string("Missing tool `name` in params."));
            },
        };
        let k = match self.find_tool(name.as_str()) {
            Some(k) => k,
            None => {
                let mut m = to_owned_string("There is no tool named `");
                push_str(&mut m, name.as_str());
                push_str(&mut m, "`.");
                return refusal(id, ErrorCode::MethodNotFound, m);
            },
        };
        if self.is_blocked(&self.tools[k]) {
            let mut m = to_owned_string("The `");
            push_str(&mut m, name.as_str());
            push_str(
                &mut m,
                "` tool modifies the project and is disabled because xmcp is running in read-only mode.",
            );
            return refusal(id, ErrorCode::InvalidRequest, m);
        }
        let arguments: Vec<(String, Json)> = match p.get("arguments") {
            Some(a) => match a {
                Json::Object(entries) => {
                    let mut copy: Vec<(String, Json)> = Vec::new();
                    let mut i: usize = 0;
                    while i < entries.len()
                        invariant
                            i <= entries.len(),
                            entries_view(copy@) == entries_view(entries@.take(i as int)),
                        decreases entries.len() - i,
                    {
                        let ghost before = copy@;
                        copy.push((entries[i].0.clone(), entries[i].1.copy()));
                        proof {
                            assert(copy@.drop_last() =~= before);
                            assert(entries@.take(i + 1).drop_last() =~= entries@.take(i as int));
                        }
                        i = i + 1;
                    }
                    assert(entries@.take(entries.len() as int) =~= entries@);
                    copy
                },
                _ => {
                    return refusal(
                        id,
                        ErrorCode::InvalidParams,
                        to_owned_string("The `arguments` value is not a valid object."),
                    );
                },
            },
            None => {
                let v: Vec<(String, Json)> = Vec::new();
                assert(entries_view(v@) =~= Seq::empty());
                v
            },
        };
        match validate_arguments(&self.tools[k], &arguments) {
            Err(m) => refusal(id, ErrorCode::InvalidParams, m),
            Ok(()) => Dispatch::RunTool { id, tool: k, arguments },
        }
    }

    /// What the server does with `request`: the JSON-RPC routing of MCP's
    /// `initialize`, `tools/list`, `tools/call`, `resources/list`,
    /// `resources/read`, `ping` and client notifications.
    pub fn handle_request(&self, request: JsonRpcRequest) -> (d: Dispatch)
        ensures
            answer_of(d) == answer(
                self.tools@,
                self.read_only,
                opt_view(request.id),
                opt_str(request.method),
                opt_view(request.params),
            ),
            well_formed(d),
    {
        let notification = match &request.method {
            Some(m) => str_starts_with(m.as_str(), "notifications/"),
            None => false,
        };
        let has_id = request.id.is_some();
        if !has_id && !notification {
            return refusal(Json::Null, ErrorCode::InvalidRequest, to_owned_string("Missing `id` in request."));
        }
        let id = match request.id {
            Some(j) => j,
            None => Json::Null,
        };
        let method = match request.method {
            Some(m) => m,
            None => {
                return refusal(id, ErrorCode::InvalidRequest, to_owned_string("Missing `method` key in JSON request."));
            },
        };
        let params = request.params;
        let ms = method.as_str();
        if str_eq(ms, "initialize") {
            let r = Self::initialize_result(&params);
            reply(id, r)
        } else if str_eq(ms, "tools/list") {
            let r = self.tools_list();
            reply(id, r)
        } else if str_eq(ms, "tools/call") {
            self.tools_call(id, params)
        } else if str_eq(ms, "resources/list") {
            Dispatch::ListResources { id }
        } else if str_eq(ms, "resources/read") {
            let uri: String = match &params {
                Some(p) => match p.get("uri") {
                    Some(u) => match u.as_str() {
                        Some(s) => s.clone(),
                        None => String::new(),
                    },
                    None => String::new(),
                },
                None => String::new(),
            };
            Dispatch::ReadResource { id, uri }
        } else if str_eq(ms, "ping") {
            reply(id, empty_object())
        } else if notification {
            Dispatch::NoReply
        } else {
            let mut m = to_owned_string("Method not found: ");
            push_str(&mut m, ms);
            refusal(id, ErrorCode::MethodNotFound, m)
        }
    }
}

/// No answer of a read-only server runs a tool that changes the project.
pub proof fn law_read_only_runs_no_mutating_tool(
    tools: Seq<ToolInfo>,
    id: Option<JsonView>,
    method: Option<Seq<char>>,
    params: Option<JsonView>,
)
    ensures
        answer(tools, true, id, method, params) matches Answer::Run(_, k, _) ==> 0 <= k < tools.len()
            && !tools[k].mutates,
{
    let a = answer(tools, true, id, method, params);
    if let Answer::Run(_, k, _) = a {
        let p = params.unwrap();
        let name = as_str_opt(get(p, "name"@)).unwrap();
        let c = choose|j: int| first_tool_at(tools, name, j);
        assert(first_tool_at(tools, name, c));
    }
}

/// A read-only server answers a call of a tool that changes the project
/// with an invalid-request error that explains read-only mode, and does not
/// run it.
pub proof fn law_read_only_refuses_mutating_call(
    tools: Seq<ToolInfo>,
    id: JsonView,
    params: JsonView,
    name: Seq<char>,
    k: int,
)
    requires
        as_str_opt(get(params, "name"@)) == Some(name),
        find_tool(tools, name) == Some(k),
        tools[k].mutates,
    ensures
        answer(tools, true, Some(id), Some("tools/call"@), Some(params)) == refuse(
            id,
            ErrorCode::InvalidRequest,
            read_only_message(name),
        ),
        code_of(ErrorCode::InvalidRequest) == -32600,
        contains(read_only_message(name), "read-only"@),
{
    reveal_strlit("tools/call");
    reveal_strlit("notifications/");
    reveal_strlit("initialize");
    reveal_strlit("tools/list");
    assert("tools/call"@ != "initialize"@) by {
        assert("tools/call"@[0] != "initialize"@[0]);
    }
    assert("tools/call"@ != "tools/list"@) by {
        assert("tools/call"@[6] != "tools/list"@[6]);
    }
    let m = read_only_message(name);
    let tail = "` tool modifies the project and is disabled because xmcp is running in read-only mode."@;
    reveal_strlit("` tool modifies the project and is disabled because xmcp is running in read-only mode.");
    reveal_strlit("read-only");
    reveal_strlit("The `");
    let at: int = 5 + name.len() as int + 71;
    assert(m == "The `"@ + name + tail);
    assert(m.subrange(at, at + 9) =~= "read-only"@);
    assert(crate::text::occurs_at(m, "read-only"@, at));
}

/// The parameters of a `tools/call` name a tool that changes the project.
pub open spec fn names_mutating_tool(tools: Seq<ToolInfo>, params: Option<JsonView>) -> bool {
    match params {
        Some(p) => match as_str_opt(get(p, "name"@)) {
            Some(n) => match find_tool(tools, n) {
                Some(k) => tools[k].mutates,
                None => false,
            },
            None => false,
        },
        None => false,
    }
}

/// A call of a tool that does not change the project gets the same answer
/// from a read-only server as from a read-write one.
pub proof fn law_read_only_passes_other_calls(
    tools: Seq<ToolInfo>,
    id: JsonView,
    params: Option<JsonView>,
)
    requires
        !names_mutating_tool(tools, params),
    ensures
        call_answer(tools, true, id, params) == call_answer(tools, false, id, params),
{
}

/// The tools a server lists: every tool when it is read-write; in
/// read-only mode exactly the tools that do not change the project, in
/// their order.
pub proof fn law_listed_tools(tools: Seq<ToolInfo>)
    ensures
        listed(tools, false) == tools.map_values(|t: ToolInfo| tool_json(t)),
        listed(tools, true) == listed(tools.filter(|t: ToolInfo| !t.mutates), false),
    decreases tools.len(),
{
    if tools.len() > 0 {
        law_listed_tools(tools.drop_last());
        assert(tools.drop_last().map_values(|t: ToolInfo| tool_json(t)).push(tool_json(tools.last()))
            =~= tools.map_values(|t: ToolInfo| tool_json(t)));
        reveal(Seq::filter);
        let f = |t: ToolInfo| !t.mutates;
        let fl = tools.drop_last().filter(f);
        assert(tools.filter(f) == if f(tools.last()) { fl.push(tools.last()) } else { fl });
        if f(tools.last()) {
            assert(fl.push(tools.last()).drop_last() =~= fl);
        }
    } else {
        reveal(Seq::filter);
        assert(tools.map_values(|t: ToolInfo| tool_json(t)) =~= Seq::empty());
        assert(tools.filter(|t: ToolInfo| !t.mutates) =~= Seq::empty());
    }
}

/// A notification gets no answer.
pub proof fn law_notifications_get_no_answer(
    tools: Seq<ToolInfo>,
    read_only: bool,
    id: Option<JsonView>,
    method: Seq<char>,
    params: Option<JsonView>,
)
    requires
        starts_with(method, "notifications/"@),
    ensures
        answer(tools, read_only, id, Some(method), params) == Answer::Silent,
{
    reveal_strlit("notifications/");
    reveal_strlit("initialize");
    reveal_strlit("tools/list");
    reveal_strlit("tools/call");
    reveal_strlit("resources/list");
    reveal_strlit("resources/read");
    reveal_strlit("ping");
    assert("notifications/"@.len() == 14);
    assert(method.take(14)[0] == method[0]);
    assert("notifications/"@[0] == 'n');
    assert(method[0] == 'n');
    assert(method != "initialize"@) by { assert("initialize"@[0] == 'i'); }
    assert(method != "tools/list"@) by { assert("tools/list"@[0] == 't'); }
    assert(method != "tools/call"@) by { assert("tools/call"@[0] == 't'); }
    assert(method != "resources/list"@) by { assert("resources/list"@[0] == 'r'); }
    assert(method != "resources/read"@) by { assert("resources/read"@[0] == 'r'); }
    assert(method != "ping"@) by { assert("ping"@[0] == 'p'); }
}

/// A request with an id is answered for that id (or, for a notification,
/// not at all); a request without one that is no notification is refused.
pub proof fn law_answers_carry_the_request_id(
    tools: Seq<ToolInfo>,
    read_only: bool,
    id: Option<JsonView>,
    method: Option<Seq<char>>,
    params: Option<JsonView>,
)
    ensures
        match id {
            Some(v) => match answer(tools, read_only, id, method, params) {
                Answer::Reply(rid, _) => rid == v,
                Answer::Run(rid, _, _) => rid == v,
                Answer::ListResources(rid) => rid == v,
                Answer::ReadResource(rid, _) => rid == v,
                Answer::Silent => true,
            },
            None => (match method {
                Some(m) => starts_with(m, "notifications/"@),
                None => false,
            }) || answer(tools, read_only, id, method, params) == refuse(
                JsonView::Null,
                ErrorCode::InvalidRequest,
                "Missing `id` in request."@,
            ),
        },
{
}

/// A `tools/call` that runs a tool runs the tool the params name, for the
/// request's id, with exactly the members of the params' `arguments`
/// object, in order (none when `arguments` is absent), and only when those
/// arguments pass the tool's validation.
pub proof fn law_tools_run_with_the_given_arguments(
    tools: Seq<ToolInfo>,
    read_only: bool,
    id: JsonView,
    params: Option<JsonView>,
)
    ensures
        call_answer(tools, read_only, id, params) matches Answer::Run(rid, k, args) ==> {
            &&& rid == id
            &&& params matches Some(p)
            &&& 0 <= k < tools.len()
            &&& as_str_opt(get(p, "name"@)) == Some(tools[k].name@)
            &&& !blocked(read_only, tools[k])
            &&& match get(p, "arguments"@) {
                Some(JsonView::Object(e)) => args == e,
                None => args == Seq::<(Seq<char>, JsonView)>::empty(),
                _ => false,
            }
            &&& validation(tools[k], args) == Ok::<(), Seq<char>>(())
        },
{
    if let Answer::Run(_, k, _) = call_answer(tools, read_only, id, params) {
        let p = params.unwrap();
        let name = as_str_opt(get(p, "name"@)).unwrap();
        let c = choose|j: int| first_tool_at(tools, name, j);
        assert(first_tool_at(tools, name, c));
    }
}

} // verus!
