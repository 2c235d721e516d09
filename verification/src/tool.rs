//! Tool descriptions, tool results, and the rules that check a call's
//! arguments against a tool's parameters.

use vstd::prelude::*;
use crate::json::{
    Json, JsonNumber, JsonView, NumberView, entries_view, json_view, lemma_entries_view, member,
};
use crate::text::{join, join_strings, push_str, str_eq, to_owned_string};

verus! {

/// JSON Schema types for tool parameters.
#[derive(Debug, Clone, Copy, PartialEq, Eq, Structural)]
pub enum ParamType {
    Array,
    Boolean,
    Integer,
    Number,
    Object,
    String,
}

/// The JSON Schema name of a parameter type.
pub open spec fn schema_name(t: ParamType) -> Seq<char> {
    match t {
        ParamType::Array => "array"@,
        ParamType::Boolean => "boolean"@,
        ParamType::Integer => "integer"@,
        ParamType::Number => "number"@,
        ParamType::Object => "object"@,
        ParamType::String => "string"@,
    }
}

impl ParamType {
    /// The JSON Schema name of this type.
    pub fn as_str(self) -> (r: &'static str)
        ensures
            r@ == schema_name(self),
    {
        match self {
            ParamType::Array => "array",
            ParamType::Boolean => "boolean",
            ParamType::Integer => "integer",
            ParamType::Number => "number",
            ParamType::Object => "object",
            ParamType::String => "string",
        }
    }
}

/// One parameter that a tool accepts.
#[derive(Debug)]
pub struct ToolParam {
    pub name: &'static str,
    pub param_type: ParamType,
    pub description: &'static str,
    pub required: bool,
    pub default: Option<Json>,
}

/// What a tool answers: its text, and whether it reports a failure.
#[derive(Debug)]
pub struct ToolResult {
    pub output: String,
    pub is_error: bool,
}

impl ToolResult {
    /// A successful result with `output`.
    pub fn success(output: String) -> (r: Self)
        ensures
            r.output == output,
            !r.is_error,
    {
        ToolResult { output, is_error: false }
    }

    /// A failed result with message `msg`.
    pub fn failure(msg: String) -> (r: Self)
        ensures
            r.output == msg,
            r.is_error,
    {
        ToolResult { output: msg, is_error: true }
    }
}

/// What every tool describes about itself.
pub trait Tool {
    /// The tool's name.
    fn name(&self) -> &'static str;

    /// What the tool does.
    fn description(&self) -> &'static str;

    /// The parameters the tool accepts.
    fn parameters(&self) -> Vec<ToolParam>;

    /// Whether the tool changes the project (its code, items, or what is
    /// saved on disk); read-only mode hides and refuses these.
    fn mutates(&self) -> bool;
}

/// What a tool's run has at hand: the IDE connection, the documentation
/// directory, and whether to log.
pub struct ToolContext<'a> {
    pub ide: Option<&'a crate::communicator::Communicator>,
    pub docs_path: Option<&'a str>,
    pub verbose: bool,
}

/// A tool's description: its name, what it does, its parameters, and
/// whether it changes the project.
#[derive(Debug)]
pub struct ToolInfo {
    pub name: &'static str,
    pub description: &'static str,
    pub params: Vec<ToolParam>,
    pub mutates: bool,
}

/// The parameter type that a JSON value has: `null` and objects count as
/// objects, integers as integers, other numbers as numbers.
pub open spec fn type_of(v: JsonView) -> ParamType {
    match v {
        JsonView::Array(_) => ParamType::Array,
        JsonView::String(_) => ParamType::String,
        JsonView::Bool(_) => ParamType::Boolean,
        JsonView::Number(NumberView::Float(_)) => ParamType::Number,
        JsonView::Number(_) => ParamType::Integer,
        _ => ParamType::Object,
    }
}

/// The parameter type of a JSON value.
pub fn type_from_value(v: &Json) -> (r: ParamType)
    ensures
        r == type_of(v@),
{
    match v {
        Json::Array(_) => ParamType::Array,
        Json::String(_) => ParamType::String,
        Json::Bool(_) => ParamType::Boolean,
        Json::Number(JsonNumber::Float(_)) => ParamType::Number,
        Json::Number(_) => ParamType::Integer,
        _ => ParamType::Object,
    }
}

/// An argument of type `arg` fits a parameter of type `param`: the same
/// type, or an integer where a number is expected.
pub open spec fn fits(param: ParamType, arg: ParamType) -> bool {
    param == arg || (param == ParamType::Number && arg == ParamType::Integer)
}

/// Whether an argument of type `arg_type` fits a parameter of type `param_type`.
pub fn compatible(param_type: ParamType, arg_type: ParamType) -> (r: bool)
    ensures
        r == fits(param_type, arg_type),
{
    if param_type == arg_type {
        return true;
    }
    if param_type == ParamType::Number && arg_type == ParamType::Integer {
        return true;
    }
    false
}

/// The message for an argument of the wrong type.
pub open spec fn wrong_type_message(name: Seq<char>, expected: ParamType, received: ParamType) -> Seq<
    char,
> {
    "Wrong parameter type for parameter named `"@ + name + "`. Expected "@ + schema_name(expected)
        + " but received "@ + schema_name(received) + "."@
}

/// The message for a required parameter that is missing.
pub open spec fn missing_message(name: Seq<char>) -> Seq<char> {
    "Missing the required `"@ + name + "` parameter."@
}

/// What is wrong with the argument for parameter `p`, if anything: an
/// argument that is absent or `null` counts as not given.
pub open spec fn param_problem(p: ToolParam, args: Seq<(Seq<char>, JsonView)>) -> Option<Seq<char>> {
    let given = match member(args, p.name@) {
        Some(v) => !(v is Null),
        None => false,
    };
    if given {
        let t = type_of(member(args, p.name@).unwrap());
        if fits(p.param_type, t) {
            None
        } else {
            Some(wrong_type_message(p.name@, p.param_type, t))
        }
    } else if p.required {
        Some(missing_message(p.name@))
    } else {
        None
    }
}

/// The problem with the first parameter, in order, whose argument is wrong.
pub open spec fn first_problem(params: Seq<ToolParam>, args: Seq<(Seq<char>, JsonView)>) -> Option<
    Seq<char>,
>
    decreases params.len(),
{
    if params.len() == 0 {
        None
    } else {
        match param_problem(params[0], args) {
            Some(m) => Some(m),
            None => first_problem(params.drop_first(), args),
        }
    }
}

/// The names of the parameters.
pub open spec fn param_names(params: Seq<ToolParam>) -> Seq<Seq<char>> {
    params.map_values(|p: ToolParam| p.name@)
}

/// The argument names, in order, that name no parameter.
pub open spec fn extra_names(names: Seq<Seq<char>>, args: Seq<(Seq<char>, JsonView)>) -> Seq<
    Seq<char>,
>
    decreases args.len(),
{
    if args.len() == 0 {
        Seq::empty()
    } else {
        let rest = extra_names(names, args.drop_last());
        if names.contains(args.last().0) {
            rest
        } else {
            rest.push(args.last().0)
        }
    }
}

/// `name` in back-quotes.
pub open spec fn back_quoted(name: Seq<char>) -> Seq<char> {
    "`"@ + name + "`"@
}

/// The message for arguments that name no parameter of tool `tool`.
pub open spec fn unexpected_message(extras: Seq<Seq<char>>, tool: Seq<char>) -> Seq<char> {
    "Unexpected parameters ("@ + join(extras.map_values(|n: Seq<char>| back_quoted(n)), ", "@)
        + ") passed to `"@ + tool + "` tool."@
}

/// The verdict on a call of `tool` with `args`: the first parameter problem,
/// else the arguments that name no parameter, else success.
pub open spec fn validation(tool: ToolInfo, args: Seq<(Seq<char>, JsonView)>) -> Result<(), Seq<char>> {
    match first_problem(tool.params@, args) {
        Some(m) => Err(m),
        None => {
            let extras = extra_names(param_names(tool.params@), args);
            if extras.len() > 0 {
                Err(unexpected_message(extras, tool.name@))
            } else {
                Ok(())
            }
        },
    }
}

fn problem_of(p: &ToolParam, args: &Vec<(String, Json)>) -> (r: Option<String>)
    ensures
        match r {
            Some(m) => param_problem(*p, entries_view(args@)) == Some(m@),
            None => param_problem(*p, entries_view(args@)) is None,
        },
{
    let found = find_arg(args, p.name);
    match found {
        Some(v) => {
            if !v.is_null() {
                let t = type_from_value(v);
                if compatible(p.param_type, t) {
                    return None;
                }
                let mut m = to_owned_string("Wrong parameter type for parameter named `");
                push_str(&mut m, p.name);
                push_str(&mut m, "`. Expected ");
                push_str(&mut m, p.param_type.as_str());
                push_str(&mut m, " but received ");
                push_str(&mut m, t.as_str());
                push_str(&mut m, ".");
                return Some(m);
            }
        },
        None => {},
    }
    if p.required {
        let mut m = to_owned_string("Missing the required `");
        push_str(&mut m, p.name);
        push_str(&mut m, "` parameter.");
        Some(m)
    } else {
        None
    }
}

/// The argument named `name`: the first one with that name.
pub fn find_arg<'a>(args: &'a Vec<(String, Json)>, name: &str) -> (r: Option<&'a Json>)
    ensures
        match r {
            Some(v) => member(entries_view(args@), name@) == Some(v@),
            None => member(entries_view(args@), name@) is None,
        },
{
    proof {
        lemma_entries_view(args@);
    }
    let ghost ev = entries_view(args@);
    let mut i: usize = 0;
    assert(ev.skip(0) =~= ev);
    while i < args.len()
        invariant
            i <= args.len(),
            ev == entries_view(args@),
            ev.len() == args.len(),
            forall|k: int|
                0 <= k < args.len() ==> #[trigger] ev[k] == (args@[k].0@, json_view(args@[k].1)),
            member(ev, name@) == member(ev.skip(i as int), name@),
        decreases args.len() - i,
    {
        proof {
            assert(ev.skip(i as int).drop_first() =~= ev.skip(i + 1));
            assert(ev.skip(i as int)[0] == ev[i as int]);
        }
        if str_eq(args[i].0.as_str(), name) {
            return Some(&args[i].1);
        }
        i = i + 1;
    }
    None
}

fn names_param(params: &Vec<ToolParam>, name: &str) -> (r: bool)
    ensures
        r == param_names(params@).contains(name@),
{
    let mut i: usize = 0;
    while i < params.len()
        invariant
            i <= params.len(),
            forall|k: int| 0 <= k < i ==> params@[k].name@ != name@,
        decreases params.len() - i,
    {
        if str_eq(params[i].name, name) {
            assert(param_names(params@)[i as int] == name@);
            return true;
        }
        i = i + 1;
    }
    assert(!param_names(params@).contains(name@)) by {
        if param_names(params@).contains(name@) {
            let k = choose|k: int| 0 <= k < params@.len() && param_names(params@)[k] == name@;
            assert(params@[k].name@ != name@);
        }
    }
    false
}

/// Checks `args` against the parameters of `tool`: every given argument has
/// a fitting type, every required parameter has an argument, and no
/// argument names something that is not a parameter.
pub fn validate_arguments(tool: &ToolInfo, args: &Vec<(String, Json)>) -> (r: Result<(), String>)
    ensures
        match r {
            Ok(()) => validation(*tool, entries_view(args@)) == Ok::<(), Seq<char>>(()),
            Err(m) => validation(*tool, entries_view(args@)) == Err::<(), Seq<char>>(m@),
        },
{
    let ghost ev = entries_view(args@);
    let params = &tool.params;
    let mut i: usize = 0;
    assert(params@.skip(0) =~= params@);
    while i < params.len()
        invariant
            i <= params.len(),
            ev == entries_view(args@),
            *params == tool.params,
            first_problem(params@, ev) == first_problem(params@.skip(i as int), ev),
        decreases params.len() - i,
    {
        proof {
            assert(params@.skip(i as int).drop_first() =~= params@.skip(i + 1));
            assert(params@.skip(i as int)[0] == params@[i as int]);
        }
        match problem_of(&params[i], args) {
            Some(m) => {
                return Err(m);
            },
            None => {},
        }
        i = i + 1;
    }
    assert(params@.skip(params.len() as int) =~= Seq::<ToolParam>::empty());
    proof {
        lemma_entries_view(args@);
    }
    let ghost names = param_names(params@);
    let mut quoted: Vec<String> = Vec::new();
    let mut j: usize = 0;
    while j < args.len()
        invariant
            j <= args.len(),
            ev == entries_view(args@),
            ev.len() == args.len(),
            forall|k: int| 0 <= k < args.len() ==> #[trigger] ev[k] == (args@[k].0@, json_view(args@[k].1)),
            *params == tool.params,
            names == param_names(params@),
            quoted@.map_values(|q: String| q@) == extra_names(names, ev.take(j as int)).map_values(
                |n: Seq<char>| back_quoted(n),
            ),
        decreases args.len() - j,
    {
        let ghost before = quoted@;
        proof {
            assert(ev.take(j + 1).drop_last() =~= ev.take(j as int));
            assert(ev.take(j + 1).last() == ev[j as int]);
        }
        if !names_param(params, args[j].0.as_str()) {
            let mut q = to_owned_string("`");
            push_str(&mut q, args[j].0.as_str());
            push_str(&mut q, "`");
            quoted.push(q);
            proof {
                let e = extra_names(names, ev.take(j as int));
                assert(quoted@.map_values(|q: String| q@) =~= before.map_values(|q: String| q@).push(q@));
                assert(e.push(args@[j as int].0@).map_values(|n: Seq<char>| back_quoted(n)) =~= e.map_values(
                    |n: Seq<char>| back_quoted(n),
                ).push(back_quoted(args@[j as int].0@)));
            }
        }
        j = j + 1;
    }
    assert(ev.take(args.len() as int) =~= ev);
    let ghost extras = extra_names(names, ev);
    if quoted.len() > 0 {
        let listed = join_strings(&quoted, ", ");
        let mut m = to_owned_string("Unexpected parameters (");
        push_str(&mut m, listed.as_str());
        push_str(&mut m, ") passed to `");
        push_str(&mut m, tool.name);
        push_str(&mut m, "` tool.");
        assert(extras.map_values(|n: Seq<char>| back_quoted(n)).len() > 0);
        return Err(m);
    }
    assert(extras.map_values(|n: Seq<char>| back_quoted(n)).len() == 0);
    Ok(())
}

/// The schema of one parameter: its type, its description, and its
/// default value where it has one.
pub open spec fn param_schema(p: ToolParam) -> JsonView {
    JsonView::Object(
        seq![("type"@, JsonView::String(schema_name(p.param_type))), ("description"@, JsonView::String(p.description@))]
            + match p.default {
            Some(d) => seq![("default"@, d@)],
            None => Seq::empty(),
        },
    )
}

/// The `properties` members of a tool's input schema, one per parameter.
pub open spec fn properties_view(params: Seq<ToolParam>) -> Seq<(Seq<char>, JsonView)> {
    params.map_values(|p: ToolParam| (p.name@, param_schema(p)))
}

/// The names of the required parameters, as JSON strings, in order.
pub open spec fn required_view(params: Seq<ToolParam>) -> Seq<JsonView>
    decreases params.len(),
{
    if params.len() == 0 {
        Seq::empty()
    } else {
        let rest = required_view(params.drop_last());
        if params.last().required {
            rest.push(JsonView::String(params.last().name@))
        } else {
            rest
        }
    }
}

/// The JSON description of a tool that MCP's `tools/list` carries.
pub open spec fn tool_json(t: ToolInfo) -> JsonView {
    JsonView::Object(
        seq![
            ("name"@, JsonView::String(t.name@)),
            ("description"@, JsonView::String(t.description@)),
            (
                "inputSchema"@,
                JsonView::Object(
                    seq![
                        ("type"@, JsonView::String("object"@)),
                        ("properties"@, JsonView::Object(properties_view(t.params@))),
                        ("required"@, JsonView::Array(required_view(t.params@))),
                    ],
                ),
            ),
        ],
    )
}

fn param_to_json(p: &ToolParam) -> (r: Json)
    ensures
        r@ == param_schema(*p),
{
    let mut entries: Vec<(String, Json)> = Vec::new();
    entries.push((to_owned_string("type"), Json::text(p.param_type.as_str())));
    entries.push((to_owned_string("description"), Json::text(p.description)));
    match &p.default {
        Some(d) => {
            entries.push((to_owned_string("default"), d.copy()));
        },
        None => {},
    }
    proof {
        lemma_entries_view(entries@);
    }
    let r = Json::object(entries);
    assert(entries_view(entries@) =~= seq![("type"@, JsonView::String(schema_name(p.param_type))), ("description"@, JsonView::String(p.description@))]
        + match p.default {
        Some(d) => seq![("default"@, d@)],
        None => Seq::empty(),
    });
    r
}

/// The JSON description of `tool` that `tools/list` carries: its name,
/// description, and an object schema with one property per parameter and
/// the list of required ones.
pub fn tool_to_json(tool: &ToolInfo) -> (r: Json)
    ensures
        r@ == tool_json(*tool),
{
    let params = &tool.params;
    let mut props: Vec<(String, Json)> = Vec::new();
    let mut required: Vec<Json> = Vec::new();
    let mut i: usize = 0;
    while i < params.len()
        invariant
            i <= params.len(),
            *params == tool.params,
            entries_view(props@) == properties_view(params@.take(i as int)),
            crate::json::items_view(required@) == required_view(params@.take(i as int)),
        decreases params.len() - i,
    {
        let ghost before_p = props@;
        let ghost before_r = required@;
        let pj = param_to_json(&params[i]);
        props.push((to_owned_string(params[i].name), pj));
        proof {
            assert(props@.drop_last() =~= before_p);
            assert(params@.take(i + 1).drop_last() =~= params@.take(i as int));
            assert(properties_view(params@.take(i + 1)) =~= properties_view(params@.take(i as int)).push(
                (params@[i as int].name@, param_schema(params@[i as int])),
            ));
        }
        if params[i].required {
            required.push(Json::text(params[i].name));
            proof {
                assert(required@.drop_last() =~= before_r);
            }
        }
        i = i + 1;
    }
    assert(params@.take(params.len() as int) =~= params@);
    let mut schema: Vec<(String, Json)> = Vec::new();
    schema.push((to_owned_string("type"), Json::text("object")));
    schema.push((to_owned_string("properties"), Json::object(props)));
    schema.push((to_owned_string("required"), Json::Array(required)));
    proof {
        lemma_entries_view(schema@);
    }
    let mut top: Vec<(String, Json)> = Vec::new();
    top.push((to_owned_string("name"), Json::text(tool.name)));
    top.push((to_owned_string("description"), Json::text(tool.description)));
    top.push((to_owned_string("inputSchema"), Json::object(schema)));
    proof {
        lemma_entries_view(top@);
        assert(entries_view(schema@) =~= seq![
            ("type"@, JsonView::String("object"@)),
            ("properties"@, JsonView::Object(properties_view(tool.params@))),
            ("required"@, JsonView::Array(required_view(tool.params@))),
        ]);
    }
    let r = Json::object(top);
    assert(entries_view(top@) =~= seq![
        ("name"@, JsonView::String(tool.name@)),
        ("description"@, JsonView::String(tool.description@)),
        (
            "inputSchema"@,
            JsonView::Object(
                seq![
                    ("type"@, JsonView::String("object"@)),
                    ("properties"@, JsonView::Object(properties_view(tool.params@))),
                    ("required"@, JsonView::Array(required_view(tool.params@))),
                ],
            ),
        ),
    ]);
    r
}

proof fn lemma_problem_anywhere(params: Seq<ToolParam>, args: Seq<(Seq<char>, JsonView)>, i: int)
    requires
        0 <= i < params.len(),
        param_problem(params[i], args) is Some,
    ensures
        first_problem(params, args) is Some,
    decreases i,
{
    if i > 0 && param_problem(params[0], args) is None {
        assert(params.drop_first()[i - 1] == params[i]);
        lemma_problem_anywhere(params.drop_first(), args, i - 1);
    }
}

/// Whatever its place among the parameters, a parameter whose argument is
/// given (and not `null`) with a type that does not fit, or a required
/// parameter without such an argument, makes the validation fail.
pub proof fn law_every_parameter_is_checked(tool: ToolInfo, args: Seq<(Seq<char>, JsonView)>, i: int)
    requires
        0 <= i < tool.params@.len(),
    ensures
        ({
            let p = tool.params@[i];
            &&& (member(args, p.name@) matches Some(v) && !(v is Null) && !fits(p.param_type, type_of(v)))
                ==> validation(tool, args) is Err
            &&& (p.required && (member(args, p.name@) is None || member(args, p.name@) == Some(JsonView::Null)))
                ==> validation(tool, args) is Err
        }),
{
    let p = tool.params@[i];
    if param_problem(p, args) is Some {
        lemma_problem_anywhere(tool.params@, args, i);
    }
}

} // verus!
