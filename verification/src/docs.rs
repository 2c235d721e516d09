//! The documentation tools and the cost estimate: what they compute from
//! the local copy of the Xojo documentation and from their arguments.

use vstd::prelude::*;
use crate::text::{
    ascii_lowercase, chars_of, contains, join, join_strings, lines, push_str, split_lines, str_contains,
    to_ascii_lowercase, to_owned_string,
};
use crate::tool::ToolResult;

verus! {

/// The message of a documentation tool when no documentation directory is
/// known.
pub open spec fn not_configured_text() -> Seq<char> {
    "Xojo documentation path not configured. Run scripts/update-xojo-docs.sh to download the documentation, or start xmcp with --docs-path."@
}

/// The failure of a documentation tool when no documentation directory is
/// known.
pub fn docs_not_configured() -> (r: ToolResult)
    ensures
        r.output@ == not_configured_text(),
        r.is_error,
{
    ToolResult::failure(
        to_owned_string(
            "Xojo documentation path not configured. Run scripts/update-xojo-docs.sh to download the documentation, or start xmcp with --docs-path.",
        ),
    )
}

/// The lines of `ls` that contain `q`, ignoring ASCII case, in order.
pub open spec fn matching(ls: Seq<Seq<char>>, q: Seq<char>) -> Seq<Seq<char>>
    decreases ls.len(),
{
    if ls.len() == 0 {
        Seq::empty()
    } else {
        let rest = matching(ls.drop_last(), q);
        if contains(ascii_lowercase(ls.last()), ascii_lowercase(q)) {
            rest.push(ls.last())
        } else {
            rest
        }
    }
}

/// The lines of `text` that contain `query`, ignoring ASCII case.
pub fn matching_lines(text: &str, query: &str) -> (r: Vec<String>)
    ensures
        r@.map_values(|l: String| l@) == matching(lines(text@), query@),
{
    let ls = split_lines(text);
    let q = to_ascii_lowercase(query);
    let ghost lv = ls@.map_values(|l: String| l@);
    let mut r: Vec<String> = Vec::new();
    let mut i: usize = 0;
    while i < ls.len()
        invariant
            i <= ls.len(),
            lv == ls@.map_values(|l: String| l@),
            lv == lines(text@),
            q@ == ascii_lowercase(query@),
            r@.map_values(|l: String| l@) == matching(lv.take(i as int), query@),
        decreases ls.len() - i,
    {
        let ghost before = r@;
        proof {
            assert(lv.take(i + 1).drop_last() =~= lv.take(i as int));
            assert(lv.take(i + 1).last() == lv[i as int]);
            assert(lv[i as int] == ls@[i as int]@);
        }
        let l = to_ascii_lowercase(ls[i].as_str());
        if str_contains(l.as_str(), q.as_str()) {
            r.push(ls[i].clone());
            assert(r@.map_values(|l: String| l@) =~= before.map_values(|l: String| l@).push(lv[i as int]));
        }
        i = i + 1;
    }
    assert(lv.take(ls.len() as int) =~= lv);
    r
}

/// How many matching lines `search_docs` shows: `max_results`, at least 1
/// and at most 100.
pub open spec fn result_limit(max_results: i64) -> int {
    if max_results < 1 {
        1
    } else if max_results > 100 {
        100
    } else {
        max_results as int
    }
}

/// The answer of `search_docs` for `query` over the full documentation
/// text: the matching lines, at most the limit, or a note that none match.
pub open spec fn search_text(text: Seq<char>, query: Seq<char>, max_results: i64) -> Seq<char> {
    let hits = matching(lines(text), query);
    if hits.len() == 0 {
        "No documentation matches `"@ + query + "`."@
    } else if hits.len() > result_limit(max_results) {
        join(hits.take(result_limit(max_results)), "\n"@)
    } else {
        join(hits, "\n"@)
    }
}

/// The first `n` strings of `v`.
fn first_strings(v: &Vec<String>, n: usize) -> (r: Vec<String>)
    requires
        n <= v.len(),
    ensures
        r@.map_values(|l: String| l@) == v@.map_values(|l: String| l@).take(n as int),
{
    let ghost vv = v@.map_values(|l: String| l@);
    let mut r: Vec<String> = Vec::new();
    let mut i: usize = 0;
    while i < n
        invariant
            i <= n <= v.len(),
            vv == v@.map_values(|l: String| l@),
            r@.map_values(|l: String| l@) == vv.take(i as int),
        decreases n - i,
    {
        let ghost before = r@;
        r.push(v[i].clone());
        assert(r@.map_values(|l: String| l@) =~= before.map_values(|l: String| l@).push(vv[i as int]));
        assert(vv.take(i + 1) =~= vv.take(i as int).push(vv[i as int]));
        i = i + 1;
    }
    r
}

/// The result of `search_docs` over the text of the full documentation.
pub fn search_docs_result(text: &str, query: &str, max_results: i64) -> (r: ToolResult)
    ensures
        r.output@ == search_text(text@, query@, max_results),
        !r.is_error,
{
    let hits = matching_lines(text, query);
    let limit: usize = if max_results < 1 {
        1
    } else if max_results > 100 {
        100
    } else {
        max_results as usize
    };
    if hits.len() == 0 {
        let mut m = to_owned_string("No documentation matches `");
        push_str(&mut m, query);
        push_str(&mut m, "`.");
        ToolResult::success(m)
    } else if hits.len() > limit {
        let shown = first_strings(&hits, limit);
        ToolResult::success(join_strings(&shown, "\n"))
    } else {
        ToolResult::success(join_strings(&hits, "\n"))
    }
}

/// The answer of `list_doc_topics` over the topic index: the index lines
/// that contain the filter (all of them for an empty filter), or a note
/// that none do.
pub open spec fn topics_text(index: Seq<char>, filter: Seq<char>) -> Seq<char> {
    let hits = matching(lines(index), filter);
    if hits.len() == 0 {
        "No documentation topics match `"@ + filter + "`."@
    } else {
        join(hits, "\n"@)
    }
}

/// The result of `list_doc_topics` over the text of the topic index.
pub fn list_doc_topics_result(index: &str, filter: &str) -> (r: ToolResult)
    ensures
        r.output@ == topics_text(index@, filter@),
        !r.is_error,
{
    let hits = matching_lines(index, filter);
    if hits.len() == 0 {
        let mut m = to_owned_string("No documentation topics match `");
        push_str(&mut m, filter);
        push_str(&mut m, "`.");
        ToolResult::success(m)
    } else {
        ToolResult::success(join_strings(&hits, "\n"))
    }
}

/// A class name that can name a documentation file: non-empty, with no
/// `/` and no `..`.
pub open spec fn valid_class_name(name: Seq<char>) -> bool {
    name.len() > 0 && !contains(name, "/"@) && !contains(name, ".."@)
}

/// Where `lookup_class` reads the documentation of `name` inside the
/// documentation directory `docs`, or the message refusing the name.
pub open spec fn class_doc_location(docs: Seq<char>, name: Seq<char>) -> Result<Seq<char>, Seq<char>> {
    if valid_class_name(name) {
        Ok(docs + "/_sources/"@ + name + ".rst.txt"@)
    } else {
        Err("Invalid class name: `"@ + name + "`."@)
    }
}

/// The documentation file of class `name` inside `docs`.
pub fn class_doc_path(docs: &str, name: &str) -> (r: Result<String, String>)
    ensures
        match r {
            Ok(p) => class_doc_location(docs@, name@) == Ok::<Seq<char>, Seq<char>>(p@),
            Err(m) => class_doc_location(docs@, name@) == Err::<Seq<char>, Seq<char>>(m@),
        },
{
    let cs = chars_of(name);
    if cs.len() > 0 && !str_contains(name, "/") && !str_contains(name, "..") {
        let mut p = to_owned_string(docs);
        push_str(&mut p, "/_sources/");
        push_str(&mut p, name);
        push_str(&mut p, ".rst.txt");
        Ok(p)
    } else {
        let mut m = to_owned_string("Invalid class name: `");
        push_str(&mut m, name);
        push_str(&mut m, "`.");
        Err(m)
    }
}

/// The failure of `lookup_class` for a class without a documentation file.
pub fn class_doc_missing(name: &str) -> (r: ToolResult)
    ensures
        r.output@ == "No documentation found for class `"@ + name@ + "`."@,
        r.is_error,
{
    let mut m = to_owned_string("No documentation found for class `");
    push_str(&mut m, name);
    push_str(&mut m, "`.");
    ToolResult::failure(m)
}

/// The advice for one kind of step: when the lower-cased approach mentions
/// `key`, the note `advice`.
pub open spec fn advice_if(approach: Seq<char>, key: Seq<char>, advice: Seq<char>) -> Seq<Seq<char>> {
    if contains(ascii_lowercase(approach), key) {
        seq![advice]
    } else {
        Seq::empty()
    }
}

/// The notes on the expensive steps an approach mentions, in a fixed
/// order.
pub open spec fn cost_notes(approach: Seq<char>) -> Seq<Seq<char>> {
    advice_if(
        approach,
        "search_docs"@,
        "- search_docs scans the full documentation; when you know the class, lookup_class reads far less."@,
    ) + advice_if(
        approach,
        "list_doc_topics"@,
        "- list_doc_topics without a filter returns the whole topic index; pass a filter."@,
    ) + advice_if(
        approach,
        "get_code"@,
        "- Reading many items with get_code is costly; read only the items the task needs."@,
    ) + advice_if(
        approach,
        "build_project"@,
        "- build_project is slow; analyze_project compile-checks without building."@,
    )
}

/// The answer of `estimate_request_cost` for a described approach.
pub open spec fn cost_text(approach: Seq<char>) -> Seq<char> {
    let notes = cost_notes(approach);
    if notes.len() == 0 {
        "No expensive steps found in this approach."@
    } else {
        "This approach may be expensive:\n"@ + join(notes, "\n"@)
    }
}

fn push_advice(notes: &mut Vec<String>, lower: &str, key: &str, advice: &str)
    ensures
        final(notes)@.map_values(|l: String| l@) == old(notes)@.map_values(|l: String| l@) + (if contains(
            lower@,
            key@,
        ) {
            seq![advice@]
        } else {
            Seq::empty()
        }),
{
    let ghost before = notes@.map_values(|l: String| l@);
    if str_contains(lower, key) {
        notes.push(to_owned_string(advice));
        assert(notes@.map_values(|l: String| l@) =~= before + seq![advice@]);
    } else {
        assert(before + Seq::<Seq<char>>::empty() =~= before);
    }
}

/// The result of `estimate_request_cost` for the described approach.
pub fn estimate_request_cost_result(approach: &str) -> (r: ToolResult)
    ensures
        r.output@ == cost_text(approach@),
        !r.is_error,
{
    let lower = to_ascii_lowercase(approach);
    let mut notes: Vec<String> = Vec::new();
    assert(notes@.map_values(|l: String| l@) =~= Seq::<Seq<char>>::empty());
    push_advice(
        &mut notes,
        lower.as_str(),
        "search_docs",
        "- search_docs scans the full documentation; when you know the class, lookup_class reads far less.",
    );
    push_advice(
        &mut notes,
        lower.as_str(),
        "list_doc_topics",
        "- list_doc_topics without a filter returns the whole topic index; pass a filter.",
    );
    push_advice(
        &mut notes,
        lower.as_str(),
        "get_code",
        "- Reading many items with get_code is costly; read only the items the task needs.",
    );
    push_advice(
        &mut notes,
        lower.as_str(),
        "build_project",
        "- build_project is slow; analyze_project compile-checks without building.",
    );
    assert(notes@.map_values(|l: String| l@) =~= cost_notes(approach@));
    if notes.len() == 0 {
        ToolResult::success(to_owned_string("No expensive steps found in this approach."))
    } else {
        let mut m = to_owned_string("This approach may be expensive:\n");
        let body = join_strings(&notes, "\n");
        push_str(&mut m, body.as_str());
        ToolResult::success(m)
    }
}

} // verus!
