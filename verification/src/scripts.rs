//! The IDE scripts the tools send, built from their arguments.

use vstd::prelude::*;
use crate::text::{
    chars_of, int_decimal, join, join_strings, lines, newline_pieces, push_char, push_int_decimal, push_str,
    split_lines, split_newlines, starts_with, to_owned_string,
};

verus! {

/// `DoCommand "<command>"` followed by an empty `Print`, so the IDE replies.
pub open spec fn do_command_text(command: Seq<char>) -> Seq<char> {
    "DoCommand \""@ + command + "\"\nPrint \"\""@
}

/// The script that runs the IDE command `command`.
pub fn do_command_script(command: &str) -> (r: String)
    ensures
        r@ == do_command_text(command@),
{
    let mut s = to_owned_string("DoCommand \"");
    push_str(&mut s, command);
    push_str(&mut s, "\"\nPrint \"\"");
    s
}

/// The script of `build_project`: `BuildApp` with the target and whether to
/// reveal the result.
pub open spec fn build_text(build_type: i64, reveal: bool) -> Seq<char> {
    do_command_text("BuildApp "@ + int_decimal(build_type as int) + " "@ + (if reveal {
        "True"@
    } else {
        "False"@
    }))
}

/// The script of `build_project`.
pub fn build_script(build_type: i64, reveal: bool) -> (r: String)
    ensures
        r@ == build_text(build_type, reveal),
{
    let mut c = to_owned_string("BuildApp ");
    push_int_decimal(&mut c, build_type);
    push_str(&mut c, " ");
    if reveal {
        push_str(&mut c, "True");
    } else {
        push_str(&mut c, "False");
    }
    do_command_script(c.as_str())
}

/// The script of `run_project`.
pub fn run_script() -> (r: String)
    ensures
        r@ == do_command_text("RunApp"@),
{
    do_command_script("RunApp")
}

/// The script of `stop_project`.
pub fn stop_script() -> (r: String)
    ensures
        r@ == "DoCommand \"Kill\"\nPrint \"Debug session stopped.\""@,
{
    to_owned_string("DoCommand \"Kill\"\nPrint \"Debug session stopped.\"")
}

/// The script of `get_current_location`.
pub fn current_location_script() -> (r: String)
    ensures
        r@ == "Dim loc As String = Location\nDim typ As String = TypeOfCurrentLocation\nPrint loc + \" (\" + typ + \")\""@,
{
    to_owned_string(
        "Dim loc As String = Location\nDim typ As String = TypeOfCurrentLocation\nPrint loc + \" (\" + typ + \")\"",
    )
}

/// The script of `get_selected_text`.
pub fn selected_text_script() -> (r: String)
    ensures
        r@ == "Try\n  Dim s As String = SelectedText\n  Dim ss As Integer = SelectionStart\n  Dim sl As Integer = SelectionLength\n  Print \"start=\" + Str(ss) + \" length=\" + Str(sl) + Chr(10) + s\nCatch\n  Print \"ERROR: No code editor is active.\"\nEnd Try"@,
{
    to_owned_string(
        "Try\n  Dim s As String = SelectedText\n  Dim ss As Integer = SelectionStart\n  Dim sl As Integer = SelectionLength\n  Print \"start=\" + Str(ss) + \" length=\" + Str(sl) + Chr(10) + s\nCatch\n  Print \"ERROR: No code editor is active.\"\nEnd Try",
    )
}

/// The script of `get_project_info`.
pub fn project_info_script() -> (r: String)
    ensures
        r@ == "Dim info As String = \"\"\ninfo = info + \"Project: \" + ProjectShellPath + Chr(10)\ninfo = info + \"Xojo Version: \" + Str(XojoVersion) + Chr(10)\ninfo = info + \"Current Location: \" + Location + Chr(10)\ninfo = info + \"Location Type: \" + TypeOfCurrentLocation + Chr(10)\ninfo = info + \"Selected Item: \" + ProjectItem\nPrint info"@,
{
    to_owned_string(
        "Dim info As String = \"\"\ninfo = info + \"Project: \" + ProjectShellPath + Chr(10)\ninfo = info + \"Xojo Version: \" + Str(XojoVersion) + Chr(10)\ninfo = info + \"Current Location: \" + Location + Chr(10)\ninfo = info + \"Location Type: \" + TypeOfCurrentLocation + Chr(10)\ninfo = info + \"Selected Item: \" + ProjectItem\nPrint info",
    )
}

/// The script of `revert_project`.
pub fn revert_script() -> (r: String)
    ensures
        r@ == "Dim path As String = ProjectShellPath\nCloseProject(False)\nOpenFile path\nPrint \"Project reloaded from disk.\""@,
{
    to_owned_string(
        "Dim path As String = ProjectShellPath\nCloseProject(False)\nOpenFile path\nPrint \"Project reloaded from disk.\"",
    )
}

/// The script of `list_project_items` for a location already escaped for
/// an IDE string literal.
pub open spec fn list_items_text(escaped: Seq<char>) -> Seq<char> {
    "Print SubLocations(\""@ + escaped + "\")"@
}

/// The script of `list_project_items`.
pub fn list_items_script(escaped: &str) -> (r: String)
    ensures
        r@ == list_items_text(escaped@),
{
    let mut s = to_owned_string("Print SubLocations(\"");
    push_str(&mut s, escaped);
    push_str(&mut s, "\")");
    s
}

/// The script of `select_project_item` for an escaped item path.
pub open spec fn select_item_text(escaped: Seq<char>) -> Seq<char> {
    "Dim result As Boolean = SelectProjectItem(\""@ + escaped
        + "\")\nIf result Then\n  Print \"Selected: \" + Location + \" (\" + TypeOfCurrentLocation + \")\"\nElse\n  Print \"ERROR: Could not select '"@
        + escaped
        + "'. Method-level items auto-navigate when using get_code/set_code. For window event handlers, edit the .xojo_window file directly and use revert_project.\"\nEnd If"@
}

/// The script of `select_project_item`.
pub fn select_item_script(escaped: &str) -> (r: String)
    ensures
        r@ == select_item_text(escaped@),
{
    let mut s = to_owned_string("Dim result As Boolean = SelectProjectItem(\"");
    push_str(&mut s, escaped);
    push_str(
        &mut s,
        "\")\nIf result Then\n  Print \"Selected: \" + Location + \" (\" + TypeOfCurrentLocation + \")\"\nElse\n  Print \"ERROR: Could not select '",
    );
    push_str(&mut s, escaped);
    push_str(
        &mut s,
        "'. Method-level items auto-navigate when using get_code/set_code. For window event handlers, edit the .xojo_window file directly and use revert_project.\"\nEnd If",
    );
    s
}

/// The script of `get_code`: the current editor's text, or, for an escaped
/// location, the text there after selecting it.
pub open spec fn get_code_text(escaped_location: Option<Seq<char>>) -> Seq<char> {
    match escaped_location {
        None => "Try\n  Print Text\nCatch\n  Print \"ERROR: No code editor is active. Try navigating to a code item first, or edit the .xojo_code file directly.\"\nEnd Try"@,
        Some(e) => "If SelectProjectItem(\""@ + e + "\") Then\n  Try\n    Print Text\n  Catch\n    Print \"ERROR: No code editor is active for '"@
            + e
            + "'. If this is a window event handler, edit the .xojo_window file directly and use revert_project.\"\n  End Try\nElse\n  Print \"ERROR: Could not select '"@
            + e + "'.\"\nEnd If"@,
    }
}

/// The script of `get_code`.
pub fn get_code_script(escaped_location: Option<&str>) -> (r: String)
    ensures
        r@ == get_code_text(
            match escaped_location {
                Some(e) => Some(e@),
                None => None,
            },
        ),
{
    match escaped_location {
        None => to_owned_string(
            "Try\n  Print Text\nCatch\n  Print \"ERROR: No code editor is active. Try navigating to a code item first, or edit the .xojo_code file directly.\"\nEnd Try",
        ),
        Some(e) => {
            let mut s = to_owned_string("If SelectProjectItem(\"");
            push_str(&mut s, e);
            push_str(&mut s, "\") Then\n  Try\n    Print Text\n  Catch\n    Print \"ERROR: No code editor is active for '");
            push_str(&mut s, e);
            push_str(
                &mut s,
                "'. If this is a window event handler, edit the .xojo_window file directly and use revert_project.\"\n  End Try\nElse\n  Print \"ERROR: Could not select '",
            );
            push_str(&mut s, e);
            push_str(&mut s, "'.\"\nEnd If");
            s
        },
    }
}

/// The script that runs `core` at the escaped location `escaped_location`
/// after selecting it, or `core` alone when there is none.
pub open spec fn at_location_text(escaped_location: Option<Seq<char>>, core: Seq<char>) -> Seq<char> {
    match escaped_location {
        None => core,
        Some(e) => "If SelectProjectItem(\""@ + e + "\") Then\n  "@ + core + "\nElse\n  Print \"ERROR: Could not select '"@ + e
            + "'.\"\nEnd If"@,
    }
}

/// The script of `get_item_description`: it sets the description to an
/// escaped value when one is given, else prints it.
pub open spec fn item_description_text(
    escaped_location: Option<Seq<char>>,
    escaped_value: Option<Seq<char>>,
) -> Seq<char> {
    let core = match escaped_value {
        Some(v) => "ItemDescription = \""@ + v + "\"\nPrint \"OK\""@,
        None => "Print ItemDescription"@,
    };
    at_location_text(escaped_location, core)
}

/// The script of `get_item_description`.
pub fn item_description_script(escaped_location: Option<&str>, escaped_value: Option<&str>) -> (r: String)
    ensures
        r@ == item_description_text(
            match escaped_location {
                Some(e) => Some(e@),
                None => None,
            },
            match escaped_value {
                Some(e) => Some(e@),
                None => None,
            },
        ),
{
    let core = match escaped_value {
        Some(v) => {
            let mut c = to_owned_string("ItemDescription = \"");
            push_str(&mut c, v);
            push_str(&mut c, "\"\nPrint \"OK\"");
            c
        },
        None => to_owned_string("Print ItemDescription"),
    };
    match escaped_location {
        None => core,
        Some(e) => {
            let mut s = to_owned_string("If SelectProjectItem(\"");
            push_str(&mut s, e);
            push_str(&mut s, "\") Then\n  ");
            push_str(&mut s, core.as_str());
            push_str(&mut s, "\nElse\n  Print \"ERROR: Could not select '");
            push_str(&mut s, e);
            push_str(&mut s, "'.\"\nEnd If");
            s
        },
    }
}

/// The script of `constant_value`: it sets the constant to an escaped value
/// when one is given, else prints it.
pub open spec fn constant_value_text(escaped_name: Seq<char>, escaped_value: Option<Seq<char>>) -> Seq<char> {
    match escaped_value {
        Some(v) => "ConstantValue(\""@ + escaped_name + "\") = \""@ + v + "\"\nPrint \"OK\""@,
        None => "Print ConstantValue(\""@ + escaped_name + "\")"@,
    }
}

/// The script of `constant_value`.
pub fn constant_value_script(escaped_name: &str, escaped_value: Option<&str>) -> (r: String)
    ensures
        r@ == constant_value_text(
            escaped_name@,
            match escaped_value {
                Some(e) => Some(e@),
                None => None,
            },
        ),
{
    match escaped_value {
        Some(v) => {
            let mut s = to_owned_string("ConstantValue(\"");
            push_str(&mut s, escaped_name);
            push_str(&mut s, "\") = \"");
            push_str(&mut s, v);
            push_str(&mut s, "\"\nPrint \"OK\"");
            s
        },
        None => {
            let mut s = to_owned_string("Print ConstantValue(\"");
            push_str(&mut s, escaped_name);
            push_str(&mut s, "\")");
            s
        },
    }
}

/// The script of `create_project_item` for a valid item type, run at an
/// escaped parent location when one is given.
pub open spec fn create_item_text(item_type: Seq<char>, escaped_parent: Option<Seq<char>>) -> Seq<char> {
    let core = "DoCommand \""@ + item_type + "\"\n"@;
    let report = "Print \"Created "@ + item_type + " at: \" + Location"@;
    match escaped_parent {
        None => core + report,
        Some(e) => "If SelectProjectItem(\""@ + e + "\") Then\n  "@ + core + "  "@ + report
            + "\nElse\n  Print \"ERROR: Could not select '"@ + e + "'.\"\nEnd If"@,
    }
}

/// The script of `create_project_item`.
pub fn create_item_script(item_type: &str, escaped_parent: Option<&str>) -> (r: String)
    ensures
        r@ == create_item_text(
            item_type@,
            match escaped_parent {
                Some(e) => Some(e@),
                None => None,
            },
        ),
{
    match escaped_parent {
        None => {
            let mut s = to_owned_string("DoCommand \"");
            push_str(&mut s, item_type);
            push_str(&mut s, "\"\n");
            push_str(&mut s, "Print \"Created ");
            push_str(&mut s, item_type);
            push_str(&mut s, " at: \" + Location");
            s
        },
        Some(e) => {
            let mut s = to_owned_string("If SelectProjectItem(\"");
            push_str(&mut s, e);
            push_str(&mut s, "\") Then\n  ");
            push_str(&mut s, "DoCommand \"");
            push_str(&mut s, item_type);
            push_str(&mut s, "\"\n");
            push_str(&mut s, "  ");
            push_str(&mut s, "Print \"Created ");
            push_str(&mut s, item_type);
            push_str(&mut s, " at: \" + Location");
            push_str(&mut s, "\nElse\n  Print \"ERROR: Could not select '");
            push_str(&mut s, e);
            push_str(&mut s, "'.\"\nEnd If");
            s
        },
    }
}

/// The selection lines `set_selected_text` sends before replacing the
/// selection: none when the start is negative.
pub open spec fn selection_text(start: i64, length: i64) -> Seq<char> {
    if start >= 0 {
        "  SelectionStart = "@ + int_decimal(start as int) + "\n"@ + "  SelectionLength = "@ + int_decimal(
            length as int,
        ) + "\n"@
    } else {
        Seq::empty()
    }
}

/// The body of `set_selected_text`'s `Try` block: the optional selection,
/// then the replacement from the variable `__text`.
pub open spec fn replace_selection_text(start: i64, length: i64) -> Seq<char> {
    selection_text(start, length) + "  SelectedText = __text\n"@ + "  Print \"Text replaced successfully.\""@
}

/// The body of `set_selected_text`'s `Try` block.
pub fn replace_selection_body(start: i64, length: i64) -> (r: String)
    ensures
        r@ == replace_selection_text(start, length),
{
    let mut s = String::new();
    if start >= 0 {
        push_str(&mut s, "  SelectionStart = ");
        push_int_decimal(&mut s, start);
        push_str(&mut s, "\n");
        push_str(&mut s, "  SelectionLength = ");
        push_int_decimal(&mut s, length);
        push_str(&mut s, "\n");
    }
    push_str(&mut s, "  SelectedText = __text\n");
    push_str(&mut s, "  Print \"Text replaced successfully.\"");
    assert(s@ =~= replace_selection_text(start, length));
    s
}

/// The script of `set_selected_text`: the variable script that declares
/// `__text`, then the replacement inside a `Try` that reports a missing
/// code editor.
pub open spec fn replace_selection_script_text(var_script: Seq<char>, start: i64, length: i64) -> Seq<char> {
    var_script + "\nTry\n"@ + replace_selection_text(start, length)
        + "\nCatch\n  Print \"ERROR: No code editor is active.\"\nEnd Try"@
}

/// The script of `set_selected_text`, around `var_script`, the script line
/// that declares the variable `__text` with the replacement text.
pub fn replace_selection_script(var_script: &str, start: i64, length: i64) -> (r: String)
    ensures
        r@ == replace_selection_script_text(var_script@, start, length),
{
    let mut s = to_owned_string(var_script);
    push_str(&mut s, "\nTry\n");
    let body = replace_selection_body(start, length);
    push_str(&mut s, body.as_str());
    push_str(&mut s, "\nCatch\n  Print \"ERROR: No code editor is active.\"\nEnd Try");
    s
}

/// The lines `set_code` runs once the editor is in place: the editor's text
/// set from the variable `__code`, then the location reported.
pub open spec fn code_write_text() -> Seq<char> {
    "Text = __code\nPrint \"Code written to: \" + Location"@
}

/// The lines `set_code` runs once the editor is in place.
pub fn code_write_lines() -> (r: &'static str)
    ensures
        r@ == code_write_text(),
{
    "Text = __code\nPrint \"Code written to: \" + Location"
}

/// The indentation of those lines: two spaces inside the bare `Try`, four
/// inside the `Try` nested in the `If` that selects a location.
pub open spec fn code_indent_text(at_location: bool) -> Seq<char> {
    if at_location {
        "    "@
    } else {
        "  "@
    }
}

/// The indentation of the write lines.
pub fn code_indent(at_location: bool) -> (r: &'static str)
    ensures
        r@ == code_indent_text(at_location),
{
    if at_location {
        "    "
    } else {
        "  "
    }
}

/// The script of `set_code`: the variable script that declares `__code`,
/// then the indented write lines `inner` inside a `Try`, which for an
/// escaped location runs after selecting it.
pub open spec fn set_code_text(
    var_script: Seq<char>,
    inner: Seq<char>,
    escaped_location: Option<Seq<char>>,
) -> Seq<char> {
    match escaped_location {
        None => var_script + "\nTry\n"@ + inner
            + "\nCatch\n  Print \"ERROR: No code editor is active. If this is a window event handler, edit the .xojo_window file directly and use revert_project.\"\nEnd Try"@,
        Some(e) => var_script + "\nIf SelectProjectItem(\""@ + e + "\") Then\n  Try\n"@ + inner
            + "\n  Catch\n    Print \"ERROR: No code editor is active for '"@ + e
            + "'. If this is a window event handler, edit the .xojo_window file directly and use revert_project.\"\n  End Try\nElse\n  Print \"ERROR: Could not select '"@
            + e + "'.\"\nEnd If"@,
    }
}

/// The script of `set_code`, around `var_script` (the line declaring
/// `__code`) and `inner` (the write lines indented by [`code_indent`]).
pub fn set_code_script(var_script: &str, inner: &str, escaped_location: Option<&str>) -> (r: String)
    ensures
        r@ == set_code_text(
            var_script@,
            inner@,
            match escaped_location {
                Some(e) => Some(e@),
                None => None,
            },
        ),
{
    let mut s = to_owned_string(var_script);
    match escaped_location {
        None => {
            push_str(&mut s, "\nTry\n");
            push_str(&mut s, inner);
            push_str(
                &mut s,
                "\nCatch\n  Print \"ERROR: No code editor is active. If this is a window event handler, edit the .xojo_window file directly and use revert_project.\"\nEnd Try",
            );
        },
        Some(e) => {
            push_str(&mut s, "\nIf SelectProjectItem(\"");
            push_str(&mut s, e);
            push_str(&mut s, "\") Then\n  Try\n");
            push_str(&mut s, inner);
            push_str(&mut s, "\n  Catch\n    Print \"ERROR: No code editor is active for '");
            push_str(&mut s, e);
            push_str(
                &mut s,
                "'. If this is a window event handler, edit the .xojo_window file directly and use revert_project.\"\n  End Try\nElse\n  Print \"ERROR: Could not select '",
            );
            push_str(&mut s, e);
            push_str(&mut s, "'.\"\nEnd If");
        },
    }
    s
}

/// `s` as the inside of a Xojo string literal: each double quote doubled.
pub open spec fn ide_escaped(s: Seq<char>) -> Seq<char>
    decreases s.len(),
{
    if s.len() == 0 {
        Seq::empty()
    } else {
        ide_escaped(s.drop_last()) + (if s.last() == '"' {
            seq!['"', '"']
        } else {
            seq![s.last()]
        })
    }
}

/// Escapes text for a Xojo string literal.
pub fn escape_ide_string(s: &str) -> (r: String)
    ensures
        r@ == ide_escaped(s@),
{
    let v = chars_of(s);
    let mut r = String::new();
    let mut i: usize = 0;
    while i < v.len()
        invariant
            i <= v.len(),
            v@ == s@,
            r@ == ide_escaped(v@.take(i as int)),
        decreases v.len() - i,
    {
        let c = v[i];
        if c == '"' {
            push_char(&mut r, '"');
            push_char(&mut r, '"');
        } else {
            push_char(&mut r, c);
        }
        assert(v@.take(i + 1).drop_last() =~= v@.take(i as int));
        assert(r@ =~= ide_escaped(v@.take(i + 1)));
        i = i + 1;
    }
    assert(v@.take(v.len() as int) =~= v@);
    r
}

/// A Xojo string literal holding `piece`.
pub open spec fn ide_literal(piece: Seq<char>) -> Seq<char> {
    "\""@ + ide_escaped(piece) + "\""@
}

/// The script line declaring the string variable `name` holding `text`:
/// each line of `text` as a literal, joined by `EndOfLine`.
pub open spec fn string_variable_text(name: Seq<char>, text: Seq<char>) -> Seq<char> {
    "Dim "@ + name + " As String = "@ + join(
        newline_pieces(text).map_values(|p: Seq<char>| ide_literal(p)),
        " + EndOfLine + "@,
    )
}

/// The script line declaring the string variable `name` holding `text`.
pub fn build_string_variable_script(name: &str, text: &str) -> (r: String)
    ensures
        r@ == string_variable_text(name@, text@),
{
    let pieces = split_newlines(text);
    let ghost pv = pieces@.map_values(|l: String| l@);
    let mut lits: Vec<String> = Vec::new();
    let mut i: usize = 0;
    while i < pieces.len()
        invariant
            i <= pieces.len(),
            pv == pieces@.map_values(|l: String| l@),
            lits@.map_values(|l: String| l@) == pv.take(i as int).map_values(|p: Seq<char>| ide_literal(p)),
        decreases pieces.len() - i,
    {
        let mut lit = to_owned_string("\"");
        let e = escape_ide_string(pieces[i].as_str());
        push_str(&mut lit, e.as_str());
        push_str(&mut lit, "\"");
        let ghost before = lits@.map_values(|l: String| l@);
        lits.push(lit);
        proof {
            assert(pv[i as int] == pieces@[i as int]@);
            assert(lits@.map_values(|l: String| l@) =~= before.push(ide_literal(pv[i as int])));
            assert(pv.take(i + 1).map_values(|p: Seq<char>| ide_literal(p)) =~= pv.take(i as int).map_values(
                |p: Seq<char>| ide_literal(p),
            ).push(ide_literal(pv[i as int])));
        }
        i = i + 1;
    }
    assert(pv.take(pieces.len() as int) =~= pv);
    let joined = join_strings(&lits, " + EndOfLine + ");
    let mut r = to_owned_string("Dim ");
    push_str(&mut r, name);
    push_str(&mut r, " As String = ");
    push_str(&mut r, joined.as_str());
    r
}

/// The lines of `text`, each with `indent` in front, joined by line breaks.
pub open spec fn indented_text(text: Seq<char>, indent: Seq<char>) -> Seq<char> {
    join(lines(text).map_values(|l: Seq<char>| indent + l), "\n"@)
}

/// Every line of `text` with `indent` in front.
pub fn indent_lines(text: &str, indent: &str) -> (r: String)
    ensures
        r@ == indented_text(text@, indent@),
{
    let ls = split_lines(text);
    let ghost lv = ls@.map_values(|l: String| l@);
    let mut out: Vec<String> = Vec::new();
    let mut i: usize = 0;
    while i < ls.len()
        invariant
            i <= ls.len(),
            lv == ls@.map_values(|l: String| l@),
            out@.map_values(|l: String| l@) == lv.take(i as int).map_values(|l: Seq<char>| indent@ + l),
        decreases ls.len() - i,
    {
        let mut line = to_owned_string(indent);
        push_str(&mut line, ls[i].as_str());
        let ghost before = out@.map_values(|l: String| l@);
        out.push(line);
        proof {
            assert(lv[i as int] == ls@[i as int]@);
            assert(out@.map_values(|l: String| l@) =~= before.push(indent@ + lv[i as int]));
            assert(lv.take(i + 1).map_values(|l: Seq<char>| indent@ + l) =~= lv.take(i as int).map_values(
                |l: Seq<char>| indent@ + l,
            ).push(indent@ + lv[i as int]));
        }
        i = i + 1;
    }
    assert(lv.take(ls.len() as int) =~= lv);
    join_strings(&out, "\n")
}

/// The `get_code` script prints the editor's whole text (`Print Text`)
/// inside its `Try`, both for the current editor and, after selecting it,
/// for a given location.
pub proof fn law_get_code_prints_the_text(e: Seq<char>)
    ensures
        starts_with(get_code_text(None), "Try\n  Print Text\n"@),
        starts_with(
            get_code_text(Some(e)),
            "If SelectProjectItem(\""@ + e + "\") Then\n  Try\n    Print Text\n"@,
        ),
{
    let none_text = "Try\n  Print Text\nCatch\n  Print \"ERROR: No code editor is active. Try navigating to a code item first, or edit the .xojo_code file directly.\"\nEnd Try"@;
    reveal_strlit("Try\n  Print Text\nCatch\n  Print \"ERROR: No code editor is active. Try navigating to a code item first, or edit the .xojo_code file directly.\"\nEnd Try");
    reveal_strlit("Try\n  Print Text\n");
    assert(none_text.take("Try\n  Print Text\n"@.len() as int) =~= "Try\n  Print Text\n"@);
    let head = "If SelectProjectItem(\""@;
    let mid = "\") Then\n  Try\n    Print Text\n  Catch\n    Print \"ERROR: No code editor is active for '"@;
    let short = "\") Then\n  Try\n    Print Text\n"@;
    reveal_strlit("\") Then\n  Try\n    Print Text\n  Catch\n    Print \"ERROR: No code editor is active for '");
    reveal_strlit("\") Then\n  Try\n    Print Text\n");
    assert(mid.take(short.len() as int) =~= short);
    let t = get_code_text(Some(e));
    let pre = head + e + short;
    assert(t.take(pre.len() as int) =~= pre);
}

} // verus!
