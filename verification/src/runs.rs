//! What the tools compute around their IDE calls: reading arguments,
//! building IDE scripts, and turning the IDE's or the system's output into
//! a tool result.

use vstd::prelude::*;
use crate::json::{
    Json, JsonView, as_array, as_i64, as_str, display_text, get, get_opt, items_view, json_parse,
    lemma_items_view, parse_json,
};
use crate::text::{
    chars_of, contains, decimal, int_decimal, join, join_strings, lines, push_decimal, push_int_decimal,
    push_str, split_lines, str_contains, str_eq, str_starts_with, to_owned_string, trim, trim_string,
};
use crate::scripts::{escape_ide_string, ide_escaped};
use crate::tool::{ToolResult, find_arg};
use crate::json::{as_bool, entries_view, member};
use crate::settings::{lowercase, lowercase_of};
use crate::text::{occurrences, replace_counting, replaced, starts_with, to_ascii_lowercase};

verus! {

/// The lines of `ls` that contain `pat`, in order.
pub open spec fn containing(ls: Seq<Seq<char>>, pat: Seq<char>) -> Seq<Seq<char>>
    decreases ls.len(),
{
    if ls.len() == 0 {
        Seq::empty()
    } else {
        let rest = containing(ls.drop_last(), pat);
        if contains(ls.last(), pat) {
            rest.push(ls.last())
        } else {
            rest
        }
    }
}

/// A line that begins with an ASCII digit: a data row of `log show`, which
/// starts with a timestamp.
pub open spec fn is_data_row(l: Seq<char>) -> bool {
    l.len() > 0 && '0' <= l[0] && l[0] <= '9'
}

/// The data rows of `ls`, in order.
pub open spec fn data_rows(ls: Seq<Seq<char>>) -> Seq<Seq<char>>
    decreases ls.len(),
{
    if ls.len() == 0 {
        Seq::empty()
    } else {
        let rest = data_rows(ls.drop_last());
        if is_data_row(ls.last()) {
            rest.push(ls.last())
        } else {
            rest
        }
    }
}

/// How many raw rows the report shows at most.
pub const MAX_SHOWN_ROWS: usize = 200;

/// The report of `get_system_log` on the output `stdout` of `log show` for
/// process `name` over the last `seconds` seconds: the `(XojoFramework)`
/// lines when there are any; else the data rows, at most 200, with an
/// explanation; else guidance on `System.DebugLog`.
pub open spec fn system_log_report(stdout: Seq<char>, name: Seq<char>, seconds: i64) -> Seq<char> {
    let ls = lines(stdout);
    let framework = containing(ls, "(XojoFramework)"@);
    if framework.len() > 0 {
        join(framework, "\n"@)
    } else {
        let raw = data_rows(ls);
        if raw.len() == 0 {
            "No log entries found for process '"@ + name + "' in the last "@ + int_decimal(seconds as int)
                + " seconds. get_system_log only surfaces System.DebugLog output. If the app is running, an empty result almost always means no System.DebugLog calls ran \u{2014} add System.DebugLog(\"...\") to the code you are diagnosing and query again. Prefer this over MessageBox, which blocks the UI and fires on every recursive call."@
        } else {
            let shown = if raw.len() > 200 {
                raw.take(200)
            } else {
                raw
            };
            let note = if raw.len() > shown.len() {
                " (showing the first "@ + decimal(shown.len()) + " of "@ + decimal(raw.len()) + ")"@
            } else {
                Seq::empty()
            };
            "No System.DebugLog (XojoFramework) lines matched, but `log show` returned "@ + decimal(raw.len())
                + " raw entr"@ + (if raw.len() == 1 {
                "y"@
            } else {
                "ies"@
            }) + " for process '"@ + name + "'"@ + note
                + ". These are not System.DebugLog output \u{2014} the app may be logging by another mechanism, or this Xojo version tags the sender differently:\n\n"@
                + join(shown, "\n"@)
        }
    }
}

fn keep_containing(ls: &Vec<String>, pat: &str) -> (r: Vec<String>)
    ensures
        r@.map_values(|l: String| l@) == containing(ls@.map_values(|l: String| l@), pat@),
{
    let ghost lv = ls@.map_values(|l: String| l@);
    let mut r: Vec<String> = Vec::new();
    let mut i: usize = 0;
    while i < ls.len()
        invariant
            i <= ls.len(),
            lv == ls@.map_values(|l: String| l@),
            r@.map_values(|l: String| l@) == containing(lv.take(i as int), pat@),
        decreases ls.len() - i,
    {
        let ghost before = r@;
        proof {
            assert(lv.take(i + 1).drop_last() =~= lv.take(i as int));
            assert(lv.take(i + 1).last() == lv[i as int]);
        }
        if str_contains(ls[i].as_str(), pat) {
            r.push(ls[i].clone());
            assert(r@.map_values(|l: String| l@) =~= before.map_values(|l: String| l@).push(lv[i as int]));
        }
        i = i + 1;
    }
    assert(lv.take(ls.len() as int) =~= lv);
    r
}

fn keep_data_rows(ls: &Vec<String>) -> (r: Vec<String>)
    ensures
        r@.map_values(|l: String| l@) == data_rows(ls@.map_values(|l: String| l@)),
{
    let ghost lv = ls@.map_values(|l: String| l@);
    let mut r: Vec<String> = Vec::new();
    let mut i: usize = 0;
    while i < ls.len()
        invariant
            i <= ls.len(),
            lv == ls@.map_values(|l: String| l@),
            r@.map_values(|l: String| l@) == data_rows(lv.take(i as int)),
        decreases ls.len() - i,
    {
        let ghost before = r@;
        proof {
            assert(lv.take(i + 1).drop_last() =~= lv.take(i as int));
            assert(lv.take(i + 1).last() == lv[i as int]);
        }
        let cs = chars_of(ls[i].as_str());
        if cs.len() > 0 && '0' <= cs[0] && cs[0] <= '9' {
            r.push(ls[i].clone());
            assert(r@.map_values(|l: String| l@) =~= before.map_values(|l: String| l@).push(lv[i as int]));
        }
        i = i + 1;
    }
    assert(lv.take(ls.len() as int) =~= lv);
    r
}

/// Formats the output of `log show` for `get_system_log`.
pub fn format_system_log(stdout: &str, process_name: &str, seconds: i64) -> (r: String)
    ensures
        r@ == system_log_report(stdout@, process_name@, seconds),
{
    let ls = split_lines(stdout);
    let framework = keep_containing(&ls, "(XojoFramework)");
    if framework.len() > 0 {
        return join_strings(&framework, "\n");
    }
    let raw = keep_data_rows(&ls);
    if raw.len() == 0 {
        let mut m = to_owned_string("No log entries found for process '");
        push_str(&mut m, process_name);
        push_str(&mut m, "' in the last ");
        push_int_decimal(&mut m, seconds);
        push_str(
            &mut m,
            " seconds. get_system_log only surfaces System.DebugLog output. If the app is running, an empty result almost always means no System.DebugLog calls ran \u{2014} add System.DebugLog(\"...\") to the code you are diagnosing and query again. Prefer this over MessageBox, which blocks the UI and fires on every recursive call.",
        );
        return m;
    }
    let ghost rv = raw@.map_values(|l: String| l@);
    let mut shown: Vec<String> = Vec::new();
    let limit = if raw.len() > MAX_SHOWN_ROWS {
        MAX_SHOWN_ROWS
    } else {
        raw.len()
    };
    let mut i: usize = 0;
    while i < limit
        invariant
            i <= limit <= raw.len(),
            rv == raw@.map_values(|l: String| l@),
            shown@.map_values(|l: String| l@) == rv.take(i as int),
        decreases limit - i,
    {
        let ghost before = shown@;
        shown.push(raw[i].clone());
        assert(shown@.map_values(|l: String| l@) =~= before.map_values(|l: String| l@).push(rv[i as int]));
        assert(rv.take(i + 1) =~= rv.take(i as int).push(rv[i as int]));
        i = i + 1;
    }
    assert(raw.len() <= 200 ==> rv.take(limit as int) =~= rv);
    let mut m = to_owned_string("No System.DebugLog (XojoFramework) lines matched, but `log show` returned ");
    push_decimal(&mut m, raw.len() as u64);
    push_str(&mut m, " raw entr");
    if raw.len() == 1 {
        push_str(&mut m, "y");
    } else {
        push_str(&mut m, "ies");
    }
    push_str(&mut m, " for process '");
    push_str(&mut m, process_name);
    push_str(&mut m, "'");
    if raw.len() > shown.len() {
        push_str(&mut m, " (showing the first ");
        push_decimal(&mut m, shown.len() as u64);
        push_str(&mut m, " of ");
        push_decimal(&mut m, raw.len() as u64);
        push_str(&mut m, ")");
    }
    push_str(
        &mut m,
        ". These are not System.DebugLog output \u{2014} the app may be logging by another mechanism, or this Xojo version tags the sender differently:\n\n",
    );
    let body = join_strings(&shown, "\n");
    push_str(&mut m, body.as_str());
    m
}

/// The view of a tool result: its text and whether it is a failure.
pub open spec fn result_view(r: ToolResult) -> (Seq<char>, bool) {
    (r.output@, r.is_error)
}

/// The text of an IDE reply: its `response` member when that is a string,
/// else the text `serde_json` displays for the whole reply.
pub open spec fn reply_text(reply: JsonView) -> Seq<char> {
    match as_str_opt_of(get(reply, "response"@)) {
        Some(t) => t,
        None => display_text(reply),
    }
}

/// An IDE reply as a tool result: its text, a failure when the text starts
/// with `ERROR:`.
pub open spec fn reply_outcome(reply: JsonView) -> (Seq<char>, bool) {
    let t = reply_text(reply);
    (t, starts_with(t, "ERROR:"@))
}

/// Turns the IDE's reply to a script into a tool result.
pub fn ide_reply_result(reply: &Json) -> (r: ToolResult)
    ensures
        result_view(r) == reply_outcome(reply@),
{
    let text = match reply.get("response") {
        Some(v) => match v.as_str() {
            Some(t) => t.clone(),
            None => reply.display(),
        },
        None => reply.display(),
    };
    if str_starts_with(text.as_str(), "ERROR:") {
        ToolResult::failure(text)
    } else {
        ToolResult::success(text)
    }
}

/// The code `edit_code` writes back after replacing `old` by `new` in
/// `code`, or why it refuses: `old` must be non-empty and occur in the
/// code, exactly once unless `replace_all` is set.
pub open spec fn edit_outcome(code: Seq<char>, old: Seq<char>, new: Seq<char>, replace_all: bool) -> Result<
    Seq<char>,
    Seq<char>,
> {
    let n = occurrences(code, old);
    if old.len() == 0 {
        Err("`old_string` must not be empty."@)
    } else if n == 0 {
        Err("`old_string` was not found in the code."@)
    } else if n > 1 && !replace_all {
        Err("`old_string` occurs "@ + decimal(n) + " times; add surrounding context to make it unique, or pass `replace_all: true`."@)
    } else {
        Ok(replaced(code, old, new))
    }
}

/// Applies the exact-string edit of `edit_code` to the current code.
pub fn apply_edit(code: &str, old: &str, new: &str, replace_all: bool) -> (r: Result<String, String>)
    ensures
        match r {
            Ok(c) => edit_outcome(code@, old@, new@, replace_all) == Ok::<Seq<char>, Seq<char>>(c@),
            Err(m) => edit_outcome(code@, old@, new@, replace_all) == Err::<Seq<char>, Seq<char>>(m@),
        },
{
    if chars_of(old).len() == 0 {
        return Err(to_owned_string("`old_string` must not be empty."));
    }
    let (edited, n) = replace_counting(code, old, new);
    if n == 0 {
        Err(to_owned_string("`old_string` was not found in the code."))
    } else if n > 1 && !replace_all {
        let mut m = to_owned_string("`old_string` occurs ");
        push_decimal(&mut m, n as u64);
        push_str(&mut m, " times; add surrounding context to make it unique, or pass `replace_all: true`.");
        Err(m)
    } else {
        Ok(edited)
    }
}

/// The trimmed IDE output reports nothing: it is empty or `{}`.
pub open spec fn quiet_output(trimmed: Seq<char>) -> bool {
    trimmed.len() == 0 || trimmed == "{}"@
}

/// The string member `key` of `entry`, or `default`.
pub open spec fn str_or(entry: JsonView, key: Seq<char>, default: Seq<char>) -> Seq<char> {
    match as_str_opt_of(get(entry, key)) {
        Some(s) => s,
        None => default,
    }
}

/// `as_str` on an optional member.
pub open spec fn as_str_opt_of(v: Option<JsonView>) -> Option<Seq<char>> {
    match v {
        Some(j) => as_str(j),
        None => None,
    }
}

/// The integer member `key` of `entry`, or -1.
pub open spec fn position_of(entry: JsonView) -> int {
    match get(entry, "position"@) {
        Some(j) => match as_i64(j) {
            Some(n) => n as int,
            None => -1,
        },
        None => -1,
    }
}

/// One line of a build-failure report: `  [type] message`, then ` at
/// location` and ` (position n)` where known.
pub open spec fn build_error_line(err: JsonView) -> Seq<char> {
    let loc = str_or(err, "location"@, Seq::empty());
    let pos = position_of(err);
    "  ["@ + str_or(err, "type"@, "Unknown"@) + "] "@ + str_or(err, "message"@, Seq::empty())
        + (if loc.len() > 0 {
        " at "@ + loc
    } else {
        Seq::empty()
    }) + (if pos >= 0 {
        " (position "@ + int_decimal(pos) + ")"@
    } else {
        Seq::empty()
    }) + "\n"@
}

/// The lines of a build-failure report, one per error.
pub open spec fn build_error_lines(errs: Seq<JsonView>) -> Seq<char>
    decreases errs.len(),
{
    if errs.len() == 0 {
        Seq::empty()
    } else {
        build_error_lines(errs.drop_last()) + build_error_line(errs.last())
    }
}

/// The build errors listed in a `DoCommand` reply: `buildError.errors`, when
/// it is an array.
pub open spec fn listed_build_errors(reply: Option<JsonView>) -> Option<Seq<JsonView>> {
    match get_opt(get_opt(reply, "buildError"@), "errors"@) {
        Some(e) => as_array(e),
        None => None,
    }
}

/// The result of a build or run command from the IDE's output `output`,
/// whose trimmed text parses as the JSON value `reply` (`None` when it is
/// not JSON): success when quiet; a failure listing the build errors when
/// the reply has them; otherwise the trimmed output as success.
pub open spec fn do_command_outcome(output: Seq<char>, reply: Option<JsonView>, success_msg: Seq<char>) -> (
    Seq<char>,
    bool,
) {
    let t = trim(output);
    if quiet_output(t) {
        (success_msg, false)
    } else {
        match listed_build_errors(reply) {
            Some(errs) => ("Build failed with errors:\n"@ + build_error_lines(errs), true),
            None => (t, false),
        }
    }
}

fn member_str(entry: &Json, key: &str) -> (r: Option<String>)
    ensures
        match r {
            Some(s) => as_str_opt_of(get(entry@, key@)) == Some(s@),
            None => as_str_opt_of(get(entry@, key@)) is None,
        },
{
    match entry.get(key) {
        Some(v) => match v.as_str() {
            Some(s) => Some(s.clone()),
            None => None,
        },
        None => None,
    }
}

fn build_error_text(err: &Json, out: &mut String)
    ensures
        final(out)@ == old(out)@ + build_error_line(err@),
{
    let ghost start = out@;
    let kind = match member_str(err, "type") {
        Some(s) => s,
        None => to_owned_string("Unknown"),
    };
    let msg = match member_str(err, "message") {
        Some(s) => s,
        None => String::new(),
    };
    let loc = match member_str(err, "location") {
        Some(s) => s,
        None => String::new(),
    };
    let pos: i64 = match err.get("position") {
        Some(p) => match p.as_i64() {
            Some(n) => n,
            None => -1,
        },
        None => -1,
    };
    assert(kind@ == str_or(err@, "type"@, "Unknown"@));
    assert(msg@ == str_or(err@, "message"@, Seq::empty()));
    assert(loc@ == str_or(err@, "location"@, Seq::empty()));
    assert(pos as int == position_of(err@));
    push_str(out, "  [");
    push_str(out, kind.as_str());
    push_str(out, "] ");
    push_str(out, msg.as_str());
    let ghost mid = out@;
    assert(mid == start + ("  ["@ + kind@ + "] "@ + msg@));
    if !loc.as_str().is_empty() {
        push_str(out, " at ");
        push_str(out, loc.as_str());
    }
    let ghost mid2 = out@;
    assert(mid2 == mid + (if loc@.len() > 0 {
        " at "@ + loc@
    } else {
        Seq::<char>::empty()
    }));
    if pos >= 0 {
        push_str(out, " (position ");
        push_int_decimal(out, pos);
        push_str(out, ")");
    }
    let ghost mid3 = out@;
    assert(mid3 == mid2 + (if pos >= 0 {
        " (position "@ + int_decimal(pos as int) + ")"@
    } else {
        Seq::<char>::empty()
    }));
    push_str(out, "\n");
    proof {
        let l = build_error_line(err@);
        assert(out@ =~= start + l);
    }
}

/// The result of a build or run command from the IDE's output, given the
/// JSON value of its trimmed text (`None` when it is not JSON).
pub fn do_command_result_from(output: &str, reply: Option<&Json>, success_msg: &str) -> (r: ToolResult)
    ensures
        result_view(r) == do_command_outcome(
            output@,
            match reply {
                Some(j) => Some(j@),
                None => None,
            },
            success_msg@,
        ),
{
    let trimmed = trim_string(output);
    if trimmed.as_str().is_empty() || str_eq(trimmed.as_str(), "{}") {
        return ToolResult::success(to_owned_string(success_msg));
    }
    let errors: Option<&Vec<Json>> = match reply {
        Some(v) => match v.get("buildError") {
            Some(be) => match be.get("errors") {
                Some(e) => e.as_array(),
                None => None,
            },
            None => None,
        },
        None => None,
    };
    match errors {
        Some(errs) => {
            proof {
                lemma_items_view(errs@);
            }
            let ghost ev = items_view(errs@);
            let mut msg = to_owned_string("Build failed with errors:\n");
            let ghost head = msg@;
            let mut i: usize = 0;
            while i < errs.len()
                invariant
                    i <= errs.len(),
                    ev == items_view(errs@),
                    ev.len() == errs.len(),
                    forall|k: int| 0 <= k < errs.len() ==> #[trigger] ev[k] == errs@[k]@,
                    msg@ == head + build_error_lines(ev.take(i as int)),
                decreases errs.len() - i,
            {
                build_error_text(&errs[i], &mut msg);
                proof {
                    assert(ev.take(i + 1).drop_last() =~= ev.take(i as int));
                    assert(ev.take(i + 1).last() == ev[i as int]);
                    assert(msg@ =~= head + build_error_lines(ev.take(i + 1)));
                }
                i = i + 1;
            }
            assert(ev.take(errs.len() as int) =~= ev);
            ToolResult::failure(msg)
        },
        None => ToolResult::success(trimmed),
    }
}

/// A member of `entry` as display text: a string as it is, `null` or a
/// missing member as empty text, any other value as `serde_json` displays
/// it.
pub open spec fn field_text(entry: JsonView, key: Seq<char>) -> Seq<char> {
    match get(entry, key) {
        Some(JsonView::String(s)) => s,
        Some(JsonView::Null) => Seq::empty(),
        None => Seq::empty(),
        Some(other) => display_text(other),
    }
}

/// Reads a member of a JSON object as display text.
pub fn json_field_str(obj: &Json, key: &str) -> (r: String)
    ensures
        r@ == field_text(obj@, key@),
{
    match obj.get(key) {
        Some(Json::String(s)) => s.clone(),
        Some(Json::Null) => String::new(),
        None => String::new(),
        Some(other) => other.display(),
    }
}

/// One diagnostic as `Type: message [location] (position)` from the texts
/// of its members: the type defaults to `default_type`; the location and
/// the position appear when known, the position only when it differs from
/// the location.
pub open spec fn diagnostic_from(
    kind: Seq<char>,
    message: Seq<char>,
    location: Seq<char>,
    position: Seq<char>,
    default_type: Seq<char>,
) -> Seq<char> {
    (if kind.len() == 0 {
        default_type
    } else {
        kind
    }) + ": "@ + message + (if location.len() > 0 {
        " ["@ + location + "]"@
    } else {
        Seq::empty()
    }) + (if position.len() > 0 && position != location {
        " ("@ + position + ")"@
    } else {
        Seq::empty()
    })
}

/// One diagnostic entry as text, from its `type`, `message`, `location`
/// and `position` members.
pub open spec fn diagnostic_text(entry: JsonView, default_type: Seq<char>) -> Seq<char> {
    diagnostic_from(
        field_text(entry, "type"@),
        field_text(entry, "message"@),
        field_text(entry, "location"@),
        field_text(entry, "position"@),
        default_type,
    )
}

/// Formats one diagnostic from the display texts of its members.
pub fn diagnostic_line(kind: &str, message: &str, location: &str, position: &str, default_type: &str) -> (r:
    String)
    ensures
        r@ == diagnostic_from(kind@, message@, location@, position@, default_type@),
{
    let mut line = if kind.is_empty() {
        to_owned_string(default_type)
    } else {
        to_owned_string(kind)
    };
    push_str(&mut line, ": ");
    push_str(&mut line, message);
    let ghost mid = line@;
    if !location.is_empty() {
        push_str(&mut line, " [");
        push_str(&mut line, location);
        push_str(&mut line, "]");
    }
    let ghost mid2 = line@;
    assert(mid2 == mid + (if location@.len() > 0 {
        " ["@ + location@ + "]"@
    } else {
        Seq::<char>::empty()
    }));
    if !position.is_empty() && !str_eq(position, location) {
        push_str(&mut line, " (");
        push_str(&mut line, position);
        push_str(&mut line, ")");
    }
    assert(line@ =~= diagnostic_from(kind@, message@, location@, position@, default_type@));
    line
}

/// Formats one error or warning entry.
pub fn format_diagnostic(entry: &Json, default_type: &str) -> (r: String)
    ensures
        r@ == diagnostic_text(entry@, default_type@),
{
    let t = json_field_str(entry, "type");
    let msg = json_field_str(entry, "message");
    let location = json_field_str(entry, "location");
    let position = json_field_str(entry, "position");
    diagnostic_line(t.as_str(), msg.as_str(), location.as_str(), position.as_str(), default_type)
}

/// The texts of `entries` as diagnostics, in order.
pub open spec fn diagnostic_lines(entries: Seq<JsonView>, default_type: Seq<char>) -> Seq<Seq<char>> {
    entries.map_values(|e: JsonView| diagnostic_text(e, default_type))
}

/// The entries of the array member `key` of `be`, or none.
pub open spec fn array_member(be: JsonView, key: Seq<char>) -> Seq<JsonView> {
    match get(be, key) {
        Some(v) => match as_array(v) {
            Some(items) => items,
            None => Seq::empty(),
        },
        None => Seq::empty(),
    }
}

/// The summary `N error(s), M warning(s)`, each part only when non-zero.
pub open spec fn counts_text(errors: nat, warnings: nat) -> Seq<char> {
    let e = if errors > 0 {
        decimal(errors) + " error(s)"@
    } else {
        Seq::empty()
    };
    if warnings > 0 {
        e + (if e.len() > 0 {
            ", "@
        } else {
            Seq::empty()
        }) + decimal(warnings) + " warning(s)"@
    } else {
        e
    }
}

/// The result of `analyze_project` from the IDE's output `output`, whose
/// trimmed text parses as `reply` (`None` when it is not JSON): clean when
/// quiet; a failure for a reply that is not JSON or has no `buildError`;
/// otherwise one line per error, then per warning, under a count summary —
/// a failure when there are errors, a success with warnings only.
pub open spec fn analyze_outcome(output: Seq<char>, reply: Option<JsonView>) -> (Seq<char>, bool) {
    let t = trim(output);
    if quiet_output(t) {
        ("No errors or warnings found."@, false)
    } else {
        match reply {
            None => ("Unexpected non-JSON response: "@ + t, true),
            Some(j) => match get(j, "buildError"@) {
                None => ("Unexpected response: "@ + t, true),
                Some(be) => {
                    let errs = array_member(be, "errors"@);
                    let warns = array_member(be, "warnings"@);
                    let all = diagnostic_lines(errs, "Error"@) + diagnostic_lines(warns, "Warning"@);
                    if all.len() == 0 {
                        ("No errors or warnings found."@, false)
                    } else {
                        (
                            "Analysis results ("@ + counts_text(errs.len(), warns.len()) + "):\n"@ + join(
                                all,
                                "\n"@,
                            ),
                            errs.len() > 0,
                        )
                    }
                },
            },
        }
    }
}

fn push_diagnostics(list: Option<&Vec<Json>>, default_type: &str, lines: &mut Vec<String>) -> (n: usize)
    ensures
        final(lines)@.map_values(|l: String| l@) == old(lines)@.map_values(|l: String| l@) + diagnostic_lines(
            match list {
                Some(v) => items_view(v@),
                None => Seq::empty(),
            },
            default_type@,
        ),
        n == (match list {
            Some(v) => v.len(),
            None => 0,
        }),
{
    let ghost start = lines@.map_values(|l: String| l@);
    match list {
        Some(items) => {
            proof {
                lemma_items_view(items@);
            }
            let ghost iv = items_view(items@);
            let mut i: usize = 0;
            while i < items.len()
                invariant
                    i <= items.len(),
                    iv == items_view(items@),
                    iv.len() == items.len(),
                    forall|k: int| 0 <= k < items.len() ==> #[trigger] iv[k] == items@[k]@,
                    lines@.map_values(|l: String| l@) == start + diagnostic_lines(iv.take(i as int), default_type@),
                decreases items.len() - i,
            {
                let ghost before = lines@;
                let d = format_diagnostic(&items[i], default_type);
                lines.push(d);
                proof {
                    assert(lines@.map_values(|l: String| l@) =~= before.map_values(|l: String| l@).push(
                        diagnostic_text(iv[i as int], default_type@),
                    ));
                    assert(diagnostic_lines(iv.take(i + 1), default_type@) =~= diagnostic_lines(
                        iv.take(i as int),
                        default_type@,
                    ).push(diagnostic_text(iv[i as int], default_type@)));
                }
                i = i + 1;
            }
            assert(iv.take(items.len() as int) =~= iv);
            items.len()
        },
        None => {
            assert(diagnostic_lines(Seq::empty(), default_type@) =~= Seq::<Seq<char>>::empty());
            assert(start + Seq::<Seq<char>>::empty() =~= start);
            0
        },
    }
}

fn array_of<'a>(be: &'a Json, key: &str) -> (r: Option<&'a Vec<Json>>)
    ensures
        array_member(be@, key@) == match r {
            Some(v) => items_view(v@),
            None => Seq::empty(),
        },
{
    match be.get(key) {
        Some(v) => v.as_array(),
        None => None,
    }
}

/// The result of `analyze_project` from the IDE's output, given the JSON
/// value of its trimmed text (`None` when it is not JSON).
pub fn analyze_result_from(output: &str, reply: Option<&Json>) -> (r: ToolResult)
    ensures
        result_view(r) == analyze_outcome(
            output@,
            match reply {
                Some(j) => Some(j@),
                None => None,
            },
        ),
{
    let trimmed = trim_string(output);
    if trimmed.as_str().is_empty() || str_eq(trimmed.as_str(), "{}") {
        return ToolResult::success(to_owned_string("No errors or warnings found."));
    }
    let json = match reply {
        Some(j) => j,
        None => {
            let mut m = to_owned_string("Unexpected non-JSON response: ");
            push_str(&mut m, trimmed.as_str());
            return ToolResult::failure(m);
        },
    };
    let build_error = match json.get("buildError") {
        Some(be) => be,
        None => {
            let mut m = to_owned_string("Unexpected response: ");
            push_str(&mut m, trimmed.as_str());
            return ToolResult::failure(m);
        },
    };
    let mut lines: Vec<String> = Vec::new();
    let errors = array_of(build_error, "errors");
    let warnings = array_of(build_error, "warnings");
    let ghost e0 = lines@.map_values(|l: String| l@);
    assert(e0 =~= Seq::<Seq<char>>::empty());
    let error_count = push_diagnostics(errors, "Error", &mut lines);
    let warning_count = push_diagnostics(warnings, "Warning", &mut lines);
    let ghost errs = array_member(build_error@, "errors"@);
    let ghost warns = array_member(build_error@, "warnings"@);
    proof {
        match errors {
            Some(v) => lemma_items_view(v@),
            None => {},
        }
        match warnings {
            Some(v) => lemma_items_view(v@),
            None => {},
        }
    }
    assert(errs.len() == error_count);
    assert(warns.len() == warning_count);
    assert(lines@.map_values(|l: String| l@) =~= diagnostic_lines(errs, "Error"@) + diagnostic_lines(
        warns,
        "Warning"@,
    ));
    if lines.len() == 0 {
        return ToolResult::success(to_owned_string("No errors or warnings found."));
    }
    let mut summary = String::new();
    if error_count > 0 {
        push_decimal(&mut summary, error_count as u64);
        push_str(&mut summary, " error(s)");
    }
    let ghost e_part = summary@;
    assert(e_part == (if errs.len() > 0 {
        decimal(errs.len()) + " error(s)"@
    } else {
        Seq::<char>::empty()
    }));
    if warning_count > 0 {
        if !summary.as_str().is_empty() {
            push_str(&mut summary, ", ");
        }
        push_decimal(&mut summary, warning_count as u64);
        push_str(&mut summary, " warning(s)");
    }
    assert(summary@ =~= counts_text(errs.len(), warns.len()));
    let mut result = to_owned_string("Analysis results (");
    push_str(&mut result, summary.as_str());
    push_str(&mut result, "):\n");
    let body = join_strings(&lines, "\n");
    push_str(&mut result, body.as_str());
    if error_count > 0 {
        ToolResult::failure(result)
    } else {
        ToolResult::success(result)
    }
}

/// The string argument `key`, or `default` when it is absent or not a string.
pub open spec fn arg_str_of(args: Seq<(Seq<char>, JsonView)>, key: Seq<char>, default: Seq<char>) -> Seq<char> {
    match member(args, key) {
        Some(JsonView::String(s)) => s,
        _ => default,
    }
}

/// The integer argument `key`, or `default`.
pub open spec fn arg_i64_of(args: Seq<(Seq<char>, JsonView)>, key: Seq<char>, default: i64) -> i64 {
    match member(args, key) {
        Some(v) => match as_i64(v) {
            Some(n) => n,
            None => default,
        },
        None => default,
    }
}

/// The boolean argument `key`, or `default`.
pub open spec fn arg_bool_of(args: Seq<(Seq<char>, JsonView)>, key: Seq<char>, default: bool) -> bool {
    match member(args, key) {
        Some(v) => match as_bool(v) {
            Some(b) => b,
            None => default,
        },
        None => default,
    }
}

/// The string argument `key`, or `default`.
pub fn arg_str(args: &Vec<(String, Json)>, key: &str, default: &str) -> (r: String)
    ensures
        r@ == arg_str_of(entries_view(args@), key@, default@),
{
    match find_arg(args, key) {
        Some(Json::String(s)) => s.clone(),
        _ => to_owned_string(default),
    }
}

/// The integer argument `key`, or `default`.
pub fn arg_i64(args: &Vec<(String, Json)>, key: &str, default: i64) -> (r: i64)
    ensures
        r == arg_i64_of(entries_view(args@), key@, default),
{
    match find_arg(args, key) {
        Some(v) => match v.as_i64() {
            Some(n) => n,
            None => default,
        },
        None => default,
    }
}

/// The boolean argument `key`, or `default`.
pub fn arg_bool(args: &Vec<(String, Json)>, key: &str, default: bool) -> (r: bool)
    ensures
        r == arg_bool_of(entries_view(args@), key@, default),
{
    match find_arg(args, key) {
        Some(v) => match v.as_bool() {
            Some(b) => b,
            None => default,
        },
        None => default,
    }
}

/// Whether the argument `key` is given at all.
pub fn has_arg(args: &Vec<(String, Json)>, key: &str) -> (r: bool)
    ensures
        r == (member(entries_view(args@), key@) is Some),
{
    match find_arg(args, key) {
        Some(_) => true,
        None => false,
    }
}

/// The escaped text of the location argument `key`: none when it is
/// missing or empty.
pub open spec fn location_of(args: Seq<(Seq<char>, JsonView)>, key: Seq<char>) -> Option<Seq<char>> {
    let v = arg_str_of(args, key, Seq::empty());
    if v.len() == 0 {
        None
    } else {
        Some(ide_escaped(v))
    }
}

/// The location argument `key`, escaped for a script; none when it is
/// missing or empty.
pub fn location_arg(args: &Vec<(String, Json)>, key: &str) -> (r: Option<String>)
    ensures
        match r {
            Some(e) => location_of(entries_view(args@), key@) == Some(e@),
            None => location_of(entries_view(args@), key@) is None,
        },
{
    proof {
        reveal_strlit("");
    }
    let v = arg_str(args, key, "");
    if v.as_str().is_empty() {
        None
    } else {
        Some(escape_ide_string(v.as_str()))
    }
}

/// The escaped value argument `key` that makes a tool set rather than read:
/// present whenever the argument is given, even when it is not a string.
pub open spec fn value_of(args: Seq<(Seq<char>, JsonView)>, key: Seq<char>) -> Option<Seq<char>> {
    if member(args, key) is Some {
        Some(ide_escaped(arg_str_of(args, key, Seq::empty())))
    } else {
        None
    }
}

/// The value argument `key`, escaped for a script, when it is given.
pub fn value_arg(args: &Vec<(String, Json)>, key: &str) -> (r: Option<String>)
    ensures
        match r {
            Some(e) => value_of(entries_view(args@), key@) == Some(e@),
            None => value_of(entries_view(args@), key@) is None,
        },
{
    proof {
        reveal_strlit("");
    }
    if has_arg(args, key) {
        let v = arg_str(args, key, "");
        Some(escape_ide_string(v.as_str()))
    } else {
        None
    }
}

/// A character allowed in a process name: ASCII letters and digits, `_`,
/// `.`, space and `-`.
pub open spec fn process_name_char(c: char) -> bool {
    ('a' <= c && c <= 'z') || ('A' <= c && c <= 'Z') || ('0' <= c && c <= '9') || c == '_' || c == '.'
        || c == ' ' || c == '-'
}

/// `n` kept within `[1, 3600]`.
pub open spec fn clamp_seconds(n: i64) -> i64 {
    if n < 1 {
        1
    } else if n > 3600 {
        3600
    } else {
        n
    }
}

/// The query of `get_system_log` for `args`: the process name and the
/// look-back in seconds (60 by default, kept within 1 to 3600), or the
/// refusal of a name with characters outside the allowed set or an empty
/// one.
pub open spec fn system_log_query(args: Seq<(Seq<char>, JsonView)>) -> Result<(Seq<char>, i64), Seq<char>> {
    let name = arg_str_of(args, "process_name"@, Seq::empty());
    let seconds = clamp_seconds(arg_i64_of(args, "seconds"@, 60));
    if !(forall|i: int| 0 <= i < name.len() ==> process_name_char(#[trigger] name[i])) {
        Err(
            "Invalid process_name. Only alphanumeric characters, underscores, dots, hyphens, and spaces are allowed."@,
        )
    } else if name.len() == 0 {
        Err("The `process_name` parameter cannot be empty."@)
    } else {
        Ok((name, seconds))
    }
}

/// Reads and checks the arguments of `get_system_log`.
pub fn system_log_request(args: &Vec<(String, Json)>) -> (r: Result<(String, i64), ToolResult>)
    ensures
        match r {
            Ok((name, seconds)) => system_log_query(entries_view(args@)) == Ok::<(Seq<char>, i64), Seq<char>>(
                (name@, seconds),
            ),
            Err(t) => t.is_error && system_log_query(entries_view(args@)) == Err::<(Seq<char>, i64), Seq<char>>(
                t.output@,
            ),
        },
{
    let name = arg_str(args, "process_name", "");
    let n = arg_i64(args, "seconds", 60);
    let seconds = if n < 1 {
        1
    } else if n > 3600 {
        3600
    } else {
        n
    };
    proof {
        reveal_strlit("");
    }
    assert(name@ == arg_str_of(entries_view(args@), "process_name"@, Seq::empty()));
    assert(seconds == clamp_seconds(arg_i64_of(entries_view(args@), "seconds"@, 60)));
    let v = chars_of(name.as_str());
    let mut i: usize = 0;
    while i < v.len()
        invariant
            i <= v.len(),
            v@ == name@,
            name@ == arg_str_of(entries_view(args@), "process_name"@, Seq::empty()),
            seconds == clamp_seconds(arg_i64_of(entries_view(args@), "seconds"@, 60)),
            forall|k: int| 0 <= k < i ==> process_name_char(#[trigger] v@[k]),
        decreases v.len() - i,
    {
        let c = v[i];
        if !(('a' <= c && c <= 'z') || ('A' <= c && c <= 'Z') || ('0' <= c && c <= '9') || c == '_' || c
            == '.' || c == ' ' || c == '-') {
            assert(!process_name_char(name@[i as int]));
            return Err(
                ToolResult::failure(
                    to_owned_string(
                        "Invalid process_name. Only alphanumeric characters, underscores, dots, hyphens, and spaces are allowed.",
                    ),
                ),
            );
        }
        i = i + 1;
    }
    if v.len() == 0 {
        return Err(ToolResult::failure(to_owned_string("The `process_name` parameter cannot be empty.")));
    }
    Ok((name, seconds))
}

/// The arguments of the `log show` command for `name` over `seconds`.
pub open spec fn log_show_args_of(name: Seq<char>, seconds: i64) -> Seq<Seq<char>> {
    seq![
        "show"@,
        "--last"@,
        int_decimal(seconds as int) + "s"@,
        "--predicate"@,
        "process == \""@ + name + "\""@,
    ]
}

/// The arguments of the `log show` command that reads the unified log.
pub fn log_show_args(name: &str, seconds: i64) -> (r: Vec<String>)
    ensures
        r@.map_values(|a: String| a@) == log_show_args_of(name@, seconds),
{
    let mut r: Vec<String> = Vec::new();
    r.push(to_owned_string("show"));
    r.push(to_owned_string("--last"));
    let mut last = String::new();
    push_int_decimal(&mut last, seconds);
    push_str(&mut last, "s");
    assert(last@ =~= int_decimal(seconds as int) + "s"@);
    r.push(last);
    r.push(to_owned_string("--predicate"));
    let mut pred = to_owned_string("process == \"");
    push_str(&mut pred, name);
    push_str(&mut pred, "\"");
    r.push(pred);
    assert(r@.map_values(|a: String| a@) =~= log_show_args_of(name@, seconds));
    r
}

/// Where crashed apps leave their exception report.
pub const DEBUG_LOG_PATH: &'static str = "/tmp/xmcp_debug.log";

/// The result of `get_debug_log` when there is no log file.
pub fn debug_log_missing() -> (r: ToolResult)
    ensures
        !r.is_error,
        r.output@ == "No debug log found at /tmp/xmcp_debug.log. This file is created when an app with the UnhandledException handler crashes."@,
{
    ToolResult::success(
        to_owned_string(
            "No debug log found at /tmp/xmcp_debug.log. This file is created when an app with the UnhandledException handler crashes.",
        ),
    )
}

/// The result of `get_debug_log` for what reading the file gave: the read
/// error, a note for an empty file, or the file's text.
pub fn debug_log_result(read: Result<String, String>) -> (r: ToolResult)
    ensures
        match read {
            Err(e) => r.is_error && r.output@ == "Could not read debug log: "@ + e@,
            Ok(c) => !r.is_error && r.output@ == (if c@.len() == 0 {
                "Debug log exists but is empty."@
            } else {
                c@
            }),
        },
{
    match read {
        Err(e) => {
            let mut m = to_owned_string("Could not read debug log: ");
            push_str(&mut m, e.as_str());
            ToolResult::failure(m)
        },
        Ok(c) => {
            if c.as_str().is_empty() {
                ToolResult::success(to_owned_string("Debug log exists but is empty."))
            } else {
                ToolResult::success(c)
            }
        },
    }
}

/// The IDE command for a (lower-cased) debug action, if it is one.
pub open spec fn debug_command_of(action: Seq<char>) -> Option<Seq<char>> {
    if action == "step_over"@ {
        Some("StepOver"@)
    } else if action == "step_into"@ {
        Some("StepInto"@)
    } else if action == "step_out"@ {
        Some("StepOut"@)
    } else if action == "resume"@ {
        Some("Resume"@)
    } else if action == "pause"@ {
        Some("Pause"@)
    } else {
        None
    }
}

/// The debug command for the `action` argument, lower-cased: the IDE
/// command to run, or the refusal of an unknown action.
pub open spec fn debug_command_for(action: Seq<char>) -> Result<Seq<char>, Seq<char>> {
    let a = lowercase_of(action);
    match debug_command_of(a) {
        Some(c) => Ok(c),
        None => Err(
            "Unknown action: \""@ + a + "\". Valid actions: step_over, step_into, step_out, resume, pause."@,
        ),
    }
}

/// Looks up the IDE command for a debug action (case-insensitively).
pub fn debug_command(action: &str) -> (r: Result<&'static str, String>)
    ensures
        match r {
            Ok(c) => debug_command_for(action@) == Ok::<Seq<char>, Seq<char>>(c@),
            Err(m) => debug_command_for(action@) == Err::<Seq<char>, Seq<char>>(m@),
        },
{
    let l = lowercase(action);
    let a = l.as_str();
    if str_eq(a, "step_over") {
        Ok("StepOver")
    } else if str_eq(a, "step_into") {
        Ok("StepInto")
    } else if str_eq(a, "step_out") {
        Ok("StepOut")
    } else if str_eq(a, "resume") {
        Ok("Resume")
    } else if str_eq(a, "pause") {
        Ok("Pause")
    } else {
        let mut m = to_owned_string("Unknown action: \"");
        push_str(&mut m, a);
        push_str(&mut m, "\". Valid actions: step_over, step_into, step_out, resume, pause.");
        Err(m)
    }
}

/// The result of `debug_control` for the lower-cased `action` from the IDE
/// output, whose trimmed text parses as `reply`: a confirmation when quiet,
/// a failure when the IDE reports a `buildError`, else the output.
pub open spec fn debug_control_outcome(action: Seq<char>, output: Seq<char>, reply: Option<JsonView>) -> (
    Seq<char>,
    bool,
) {
    let t = trim(output);
    if t.len() == 0 {
        ("Debug action \""@ + action + "\" executed."@, false)
    } else if get_opt(reply, "buildError"@) is Some {
        ("IDE error: "@ + t, true)
    } else {
        (t, false)
    }
}

/// The result of `debug_control` for the `action` argument (lower-cased
/// here) from the IDE's output.
pub fn debug_control_result_from(action: &str, output: &str, reply: Option<&Json>) -> (r: ToolResult)
    ensures
        result_view(r) == debug_control_outcome(
            lowercase_of(action@),
            output@,
            match reply {
                Some(j) => Some(j@),
                None => None,
            },
        ),
{
    let t = trim_string(output);
    if t.as_str().is_empty() {
        let a = lowercase(action);
        let mut m = to_owned_string("Debug action \"");
        push_str(&mut m, a.as_str());
        push_str(&mut m, "\" executed.");
        return ToolResult::success(m);
    }
    let has_error = match reply {
        Some(j) => match j.get("buildError") {
            Some(_) => true,
            None => false,
        },
        None => false,
    };
    if has_error {
        let mut m = to_owned_string("IDE error: ");
        push_str(&mut m, t.as_str());
        ToolResult::failure(m)
    } else {
        ToolResult::success(t)
    }
}

/// The JSON value of the trimmed IDE output, when it is JSON.
fn parse_trimmed(output: &str) -> (r: Option<Json>)
    ensures
        match r {
            Some(j) => json_parse(trim(output@)) == Some(j@),
            None => json_parse(trim(output@)) is None,
        },
{
    let t = trim_string(output);
    parse_json(t.as_str())
}

/// The view of an optional value.
pub open spec fn opt_json_view(r: Option<Json>) -> Option<JsonView> {
    match r {
        Some(j) => Some(j@),
        None => None,
    }
}

/// The result of `build_project` or `run_project` from the IDE's output,
/// whose trimmed text is parsed as JSON here.
pub fn parse_do_command_result(output: &str, success_msg: &str) -> (r: ToolResult)
    ensures
        result_view(r) == do_command_outcome(output@, json_parse(trim(output@)), success_msg@),
{
    let reply = parse_trimmed(output);
    proof {
        assert(opt_json_view(reply) == json_parse(trim(output@)));
    }
    do_command_result_from(output, reply.as_ref(), success_msg)
}

/// The result of `analyze_project` from the IDE's output, whose trimmed
/// text is parsed as JSON here.
pub fn parse_analyze_result(output: &str) -> (r: ToolResult)
    ensures
        result_view(r) == analyze_outcome(output@, json_parse(trim(output@))),
{
    let reply = parse_trimmed(output);
    proof {
        assert(opt_json_view(reply) == json_parse(trim(output@)));
    }
    analyze_result_from(output, reply.as_ref())
}

/// The result of `debug_control` for the `action` argument from the IDE's
/// output, whose trimmed text is parsed as JSON here.
pub fn debug_control_result(action: &str, output: &str) -> (r: ToolResult)
    ensures
        result_view(r) == debug_control_outcome(lowercase_of(action@), output@, json_parse(trim(output@))),
{
    let reply = parse_trimmed(output);
    proof {
        assert(opt_json_view(reply) == json_parse(trim(output@)));
    }
    debug_control_result_from(action, output, reply.as_ref())
}

/// The IDE command of `analyze_project` for the `scope` argument: the
/// selected item only for `item` (any case), else the whole project.
pub open spec fn analyze_command_for(scope: Seq<char>) -> Seq<char> {
    if lowercase_of(scope) == "item"@ {
        "CheckItemErrors"@
    } else {
        "CheckProjectErrors"@
    }
}

/// The IDE command of `analyze_project`.
pub fn analyze_command(scope: &str) -> (r: &'static str)
    ensures
        r@ == analyze_command_for(scope@),
{
    let l = lowercase(scope);
    if str_eq(l.as_str(), "item") {
        "CheckItemErrors"
    } else {
        "CheckProjectErrors"
    }
}

/// The item types `create_project_item` accepts.
pub open spec fn item_types() -> Seq<Seq<char>> {
    seq![
        "NewClass"@, "NewModule"@, "NewMethod"@, "NewProperty"@, "NewConstant"@,
        "NewEvent"@, "NewNote"@, "NewMenuHandler"@, "NewComputedProperty"@,
        "NewSharedMethod"@, "NewSharedProperty"@, "NewEnum"@, "NewStructure"@,
        "NewDelegate"@, "NewInterface"@, "NewWindow"@, "NewContainerControl"@,
        "NewFolder"@, "AddEventImplementation"@,
    ]
}

/// The item types `create_project_item` accepts.
pub const VALID_ITEM_TYPES: [&'static str; 19] = [
    "NewClass", "NewModule", "NewMethod", "NewProperty", "NewConstant",
    "NewEvent", "NewNote", "NewMenuHandler", "NewComputedProperty",
    "NewSharedMethod", "NewSharedProperty", "NewEnum", "NewStructure",
    "NewDelegate", "NewInterface", "NewWindow", "NewContainerControl",
    "NewFolder", "AddEventImplementation",
];

/// Checks the `item_type` of `create_project_item`: an accepted type, or
/// the refusal that lists the accepted ones.
pub fn check_item_type(item_type: &str) -> (r: Result<(), ToolResult>)
    ensures
        match r {
            Ok(()) => item_types().contains(item_type@),
            Err(t) => !item_types().contains(item_type@) && t.is_error && t.output@ == "Invalid item_type '"@
                + item_type@ + "'. Must be one of: "@ + join(item_types(), ", "@),
        },
{
    let table = VALID_ITEM_TYPES;
    proof {
        assert forall|k: int| 0 <= k < 19 implies #[trigger] table@[k]@ == item_types()[k] by {
            reveal_strlit("NewClass");
            reveal_strlit("NewModule");
        }
    }
    let mut all: Vec<String> = Vec::new();
    let mut i: usize = 0;
    while i < 19
        invariant
            i <= 19,
            table == VALID_ITEM_TYPES,
            forall|k: int| 0 <= k < 19 ==> #[trigger] table@[k]@ == item_types()[k],
            forall|k: int| 0 <= k < i ==> item_types()[k] != item_type@,
            all@.map_values(|s: String| s@) == item_types().take(i as int),
        decreases 19 - i,
    {
        let t = table[i];
        if str_eq(t, item_type) {
            assert(item_types()[i as int] == item_type@);
            return Ok(());
        }
        let ghost before = all@;
        all.push(to_owned_string(t));
        assert(all@.map_values(|s: String| s@) =~= before.map_values(|s: String| s@).push(t@));
        assert(item_types().take(i + 1) =~= item_types().take(i as int).push(item_types()[i as int]));
        i = i + 1;
    }
    assert(item_types().take(19) =~= item_types());
    assert(!item_types().contains(item_type@)) by {
        if item_types().contains(item_type@) {
            let k = choose|k: int| 0 <= k < 19 && item_types()[k] == item_type@;
            assert(item_types()[k] != item_type@);
        }
    }
    let listed = join_strings(&all, ", ");
    let mut m = to_owned_string("Invalid item_type '");
    push_str(&mut m, item_type);
    push_str(&mut m, "'. Must be one of: ");
    push_str(&mut m, listed.as_str());
    Err(ToolResult::failure(m))
}

/// The parent directory that `Path::parent` gives for `p`, as text.
pub uninterp spec fn path_parent(p: Seq<char>) -> Option<Seq<char>>;

/// Calls `Path::parent` on `p` and shows the result with `Path::display`;
/// the result is named [`path_parent`] of the argument.
#[verifier::external_body]
fn parent_dir(p: &str) -> (r: Option<String>)
    ensures
        match r {
            Some(d) => path_parent(p@) == Some(d@),
            None => path_parent(p@) is None,
        },
{
    std::path::Path::new(p).parent().map(|d| d.display().to_string())
}

/// The text after the first line of `ls` that starts with `prefix`, if
/// there is one.
pub open spec fn first_with_prefix(ls: Seq<Seq<char>>, prefix: Seq<char>) -> Option<Seq<char>>
    decreases ls.len(),
{
    if ls.len() == 0 {
        None
    } else if starts_with(ls[0], prefix) {
        Some(ls[0].skip(prefix.len() as int))
    } else {
        first_with_prefix(ls.drop_first(), prefix)
    }
}

/// The output of `get_project_info` with the project's directory added: the
/// parent of the path on the first `Project: ` line, when it has one.
pub open spec fn project_info_text(output: Seq<char>) -> Seq<char> {
    match first_with_prefix(lines(output), "Project: "@) {
        Some(path) => match path_parent(trim(path)) {
            Some(dir) => output + "\nProject Directory: "@ + dir,
            None => output,
        },
        None => output,
    }
}

/// Adds the project directory to the output of `get_project_info`.
pub fn project_info_output(output: &str) -> (r: String)
    ensures
        r@ == project_info_text(output@),
{
    let ls = split_lines(output);
    let ghost lv = ls@.map_values(|l: String| l@);
    let prefix = chars_of("Project: ");
    let mut i: usize = 0;
    assert(lv.skip(0) =~= lv);
    while i < ls.len()
        invariant
            i <= ls.len(),
            lv == ls@.map_values(|l: String| l@),
            lv == lines(output@),
            prefix@ == "Project: "@,
            first_with_prefix(lv, "Project: "@) == first_with_prefix(lv.skip(i as int), "Project: "@),
        decreases ls.len() - i,
    {
        proof {
            assert(lv.skip(i as int).drop_first() =~= lv.skip(i + 1));
            assert(lv.skip(i as int)[0] == lv[i as int]);
        }
        let line = chars_of(ls[i].as_str());
        let is_prefixed = if line.len() >= prefix.len() {
            let mut k: usize = 0;
            let mut same = true;
            while k < prefix.len()
                invariant
                    k <= prefix.len() <= line.len(),
                    same == (forall|j: int| 0 <= j < k ==> line@[j] == prefix@[j]),
                decreases prefix.len() - k,
            {
                if line[k] != prefix[k] {
                    same = false;
                }
                k = k + 1;
            }
            proof {
                if same {
                    assert(line@.take(prefix.len() as int) =~= prefix@);
                } else {
                    let j = choose|j: int| 0 <= j < prefix.len() && line@[j] != prefix@[j];
                    assert(line@.take(prefix.len() as int)[j] != prefix@[j]);
                }
            }
            same
        } else {
            false
        };
        if is_prefixed {
            let rest = crate::text::string_of_range(&line, prefix.len(), line.len());
            assert(rest@ =~= lv[i as int].skip(prefix.len() as int));
            let path = trim_string(rest.as_str());
            let mut out = to_owned_string(output);
            match parent_dir(path.as_str()) {
                Some(d) => {
                    push_str(&mut out, "\nProject Directory: ");
                    push_str(&mut out, d.as_str());
                },
                None => {},
            }
            return out;
        }
        i = i + 1;
    }
    to_owned_string(output)
}

/// A file's modification time, in nanoseconds since the Unix epoch
/// (negative before it).
#[derive(Debug, Clone, Copy, PartialEq, Eq, Structural)]
pub struct FileTime {
    pub nanos: i128,
}

/// The file changed since `before`: it is newer, or it appeared.
pub open spec fn has_changed(now: Option<FileTime>, before: Option<FileTime>) -> bool {
    match (now, before) {
        (Some(n), Some(b)) => n.nanos > b.nanos,
        (Some(_), None) => true,
        _ => false,
    }
}

/// Whether a modification time shows a change since `before`.
pub fn changed(now: Option<FileTime>, before: Option<FileTime>) -> (r: bool)
    ensures
        r == has_changed(now, before),
{
    match (now, before) {
        (Some(n), Some(b)) => n.nanos > b.nanos,
        (Some(_), None) => true,
        _ => false,
    }
}

/// The project path that `save_project` reads from the IDE's output: the
/// trimmed output, refused when empty (no project is open).
pub fn saved_project_path(output: &str) -> (r: Result<String, ToolResult>)
    ensures
        match r {
            Ok(p) => p@ == trim(output@) && p@.len() > 0,
            Err(t) => trim(output@).len() == 0 && t.is_error && t.output@
                == "ProjectShellPath was empty \u{2014} is a project open in the Xojo IDE?"@,
        },
{
    let p = trim_string(output);
    if p.as_str().is_empty() {
        return Err(
            ToolResult::failure(to_owned_string("ProjectShellPath was empty \u{2014} is a project open in the Xojo IDE?")),
        );
    }
    Ok(p)
}

/// The result of `save_project` once the IDE saved: whether the project
/// file or its directory changed on disk.
pub fn save_result(changed_on_disk: bool) -> (r: ToolResult)
    ensures
        !r.is_error,
        r.output@ == (if changed_on_disk {
            "Project saved."@
        } else {
            "No changes to save."@
        }),
{
    if changed_on_disk {
        ToolResult::success(to_owned_string("Project saved."))
    } else {
        ToolResult::success(to_owned_string("No changes to save."))
    }
}

/// The timeout of `run_ide_script` in milliseconds: the `timeout` argument
/// (10000 by default) as an unsigned number.
pub fn script_timeout_millis(args: &Vec<(String, Json)>) -> (r: u64)
    ensures
        r == arg_i64_of(entries_view(args@), "timeout"@, 10000) as u64,
{
    let t = arg_i64(args, "timeout", 10000);
    t as u64
}

proof fn lemma_containing_is_filter(ls: Seq<Seq<char>>, pat: Seq<char>)
    ensures
        containing(ls, pat) == ls.filter(|l: Seq<char>| contains(l, pat)),
    decreases ls.len(),
{
    reveal(Seq::filter);
    if ls.len() > 0 {
        lemma_containing_is_filter(ls.drop_last(), pat);
    }
}

/// When the output of `log show` holds `(XojoFramework)` lines, the report
/// of `get_system_log` is exactly those lines, all of them, in their order,
/// one per line.
pub proof fn law_framework_lines_are_all_reported(stdout: Seq<char>, name: Seq<char>, seconds: i64)
    ensures
        ({
            let fl = lines(stdout).filter(|l: Seq<char>| contains(l, "(XojoFramework)"@));
            fl.len() > 0 ==> system_log_report(stdout, name, seconds) == join(fl, "\n"@)
        }),
{
    lemma_containing_is_filter(lines(stdout), "(XojoFramework)"@);
}

/// Each debug action, in any letter case, runs its own IDE command:
/// `step_over` steps over, `step_into` steps into, `step_out` steps out,
/// `resume` resumes and `pause` pauses; two actions that run the same
/// command are the same action.
pub proof fn law_debug_actions_run_their_own_command(a: Seq<char>, b: Seq<char>)
    ensures
        lowercase_of(a) == "step_over"@ ==> debug_command_for(a) == Ok::<Seq<char>, Seq<char>>("StepOver"@),
        lowercase_of(a) == "step_into"@ ==> debug_command_for(a) == Ok::<Seq<char>, Seq<char>>("StepInto"@),
        lowercase_of(a) == "step_out"@ ==> debug_command_for(a) == Ok::<Seq<char>, Seq<char>>("StepOut"@),
        lowercase_of(a) == "resume"@ ==> debug_command_for(a) == Ok::<Seq<char>, Seq<char>>("Resume"@),
        lowercase_of(a) == "pause"@ ==> debug_command_for(a) == Ok::<Seq<char>, Seq<char>>("Pause"@),
        (debug_command_for(a) matches Ok(c) && debug_command_for(b) matches Ok(d) && c == d) ==> lowercase_of(a)
            == lowercase_of(b),
{
    reveal_strlit("step_over");
    reveal_strlit("step_into");
    reveal_strlit("step_out");
    reveal_strlit("resume");
    reveal_strlit("pause");
    reveal_strlit("StepOver");
    reveal_strlit("StepInto");
    reveal_strlit("StepOut");
    reveal_strlit("Resume");
    reveal_strlit("Pause");
    assert("step_into"@ != "step_over"@) by { assert("step_into"@[5] != "step_over"@[5]); }
    assert("step_out"@ != "step_over"@) by { assert("step_out"@.len() != "step_over"@.len()); }
    assert("step_out"@ != "step_into"@) by { assert("step_out"@.len() != "step_into"@.len()); }
    assert("resume"@ != "step_over"@) by { assert("resume"@[0] != "step_over"@[0]); }
    assert("resume"@ != "step_into"@) by { assert("resume"@[0] != "step_into"@[0]); }
    assert("resume"@ != "step_out"@) by { assert("resume"@[0] != "step_out"@[0]); }
    assert("pause"@ != "step_over"@) by { assert("pause"@[0] != "step_over"@[0]); }
    assert("pause"@ != "step_into"@) by { assert("pause"@[0] != "step_into"@[0]); }
    assert("pause"@ != "step_out"@) by { assert("pause"@[0] != "step_out"@[0]); }
    assert("pause"@ != "resume"@) by { assert("pause"@[0] != "resume"@[0]); }
    assert("StepOver"@ != "StepInto"@) by { assert("StepOver"@[4] != "StepInto"@[4]); }
    assert("StepOver"@ != "StepOut"@) by { assert("StepOver"@.len() != "StepOut"@.len()); }
    assert("StepOver"@ != "Resume"@) by { assert("StepOver"@[0] != "Resume"@[0]); }
    assert("StepOver"@ != "Pause"@) by { assert("StepOver"@[0] != "Pause"@[0]); }
    assert("StepInto"@ != "StepOut"@) by { assert("StepInto"@.len() != "StepOut"@.len()); }
    assert("StepInto"@ != "Resume"@) by { assert("StepInto"@[0] != "Resume"@[0]); }
    assert("StepInto"@ != "Pause"@) by { assert("StepInto"@[0] != "Pause"@[0]); }
    assert("StepOut"@ != "Resume"@) by { assert("StepOut"@[0] != "Resume"@[0]); }
    assert("StepOut"@ != "Pause"@) by { assert("StepOut"@[0] != "Pause"@[0]); }
    assert("Resume"@ != "Pause"@) by { assert("Resume"@[0] != "Pause"@[0]); }
}

} // verus!
