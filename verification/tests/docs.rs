use xojo_mcp::docs::{
    class_doc_missing, class_doc_path, docs_not_configured, estimate_request_cost_result,
    list_doc_topics_result, matching_lines, search_docs_result,
};
use xojo_mcp::json::{Json, JsonNumber};
use xojo_mcp::protocol::{negotiate_protocol_version, PROTOCOL_VERSION, SUPPORTED_PROTOCOL_VERSIONS};
use xojo_mcp::runs::{apply_edit, location_arg, value_arg};
use xojo_mcp::text::replace_counting;

const DOC: &str = "DesktopButton: a push button\nTimer fires events\n\nThe Button caption\nbutton.Press";

#[test]
fn searches_match_lines_ignoring_case() {
    assert_eq!(matching_lines(DOC, "BUTTON"), vec!["DesktopButton: a push button", "The Button caption", "button.Press"]);
    let r = search_docs_result(DOC, "button", 2);
    assert!(!r.is_error);
    assert_eq!(r.output, "DesktopButton: a push button\nThe Button caption");
    assert_eq!(search_docs_result(DOC, "button", 0).output, "DesktopButton: a push button");
    assert_eq!(search_docs_result(DOC, "window", 20).output, "No documentation matches `window`.");
}

#[test]
fn topics_are_filtered_or_listed_whole() {
    assert_eq!(list_doc_topics_result("- Timer\n- Thread\n- Button", "t").output, "- Timer\n- Thread\n- Button");
    assert_eq!(list_doc_topics_result("- Timer\n- Thread\n- Button", "th").output, "- Thread");
    assert_eq!(list_doc_topics_result("- Timer", "zzz").output, "No documentation topics match `zzz`.");
    assert_eq!(list_doc_topics_result("- Timer\n- Thread", "").output, "- Timer\n- Thread");
}

#[test]
fn class_docs_are_found_by_name() {
    assert_eq!(class_doc_path("/docs", "Timer"), Ok("/docs/_sources/Timer.rst.txt".to_string()));
    assert_eq!(class_doc_path("/docs", "../x"), Err("Invalid class name: `../x`.".to_string()));
    assert_eq!(class_doc_path("/docs", ""), Err("Invalid class name: ``.".to_string()));
    let m = class_doc_missing("Nope");
    assert!(m.is_error);
    assert_eq!(m.output, "No documentation found for class `Nope`.");
    let n = docs_not_configured();
    assert!(n.is_error);
    assert!(n.output.starts_with("Xojo documentation path not configured"));
}

#[test]
fn costs_are_flagged_by_the_steps_named() {
    assert_eq!(
        estimate_request_cost_result("read two methods").output,
        "No expensive steps found in this approach."
    );
    assert_eq!(
        estimate_request_cost_result("Search_Docs for Timer, then Build_Project").output,
        "This approach may be expensive:\n- search_docs scans the full documentation; when you know the class, lookup_class reads far less.\n- build_project is slow; analyze_project compile-checks without building."
    );
}

#[test]
fn exact_string_edits() {
    assert_eq!(replace_counting("a-b-a", "a", "xy"), ("xy-b-xy".to_string(), 2));
    assert_eq!(replace_counting("aaa", "aa", "b"), ("ba".to_string(), 1));
    assert_eq!(apply_edit("x = 1\ny = 2", "y = 2", "y = 3", false), Ok("x = 1\ny = 3".to_string()));
    assert_eq!(apply_edit("a a", "a", "b", true), Ok("b b".to_string()));
    assert_eq!(
        apply_edit("a a", "a", "b", false),
        Err("`old_string` occurs 2 times; add surrounding context to make it unique, or pass `replace_all: true`.".to_string())
    );
    assert_eq!(apply_edit("abc", "z", "b", false), Err("`old_string` was not found in the code.".to_string()));
    assert_eq!(apply_edit("abc", "", "b", false), Err("`old_string` must not be empty.".to_string()));
}

#[test]
fn location_and_value_arguments() {
    let args = vec![
        ("location".to_string(), Json::String("App.\"X\"".to_string())),
        ("empty".to_string(), Json::String(String::new())),
        ("value".to_string(), Json::Number(JsonNumber::PosInt(3))),
    ];
    assert_eq!(location_arg(&args, "location"), Some("App.\"\"X\"\"".to_string()));
    assert_eq!(location_arg(&args, "empty"), None);
    assert_eq!(location_arg(&args, "missing"), None);
    assert_eq!(value_arg(&args, "value"), Some(String::new()));
    assert_eq!(value_arg(&args, "empty"), Some(String::new()));
    assert_eq!(value_arg(&args, "missing"), None);
}

#[test]
fn the_preferred_version_is_the_newest() {
    for w in SUPPORTED_PROTOCOL_VERSIONS.windows(2) {
        assert!(w[0] < w[1]);
    }
    assert_eq!(PROTOCOL_VERSION, SUPPORTED_PROTOCOL_VERSIONS[3]);
    for v in SUPPORTED_PROTOCOL_VERSIONS.iter() {
        assert!(negotiate_protocol_version(Some(v)) <= negotiate_protocol_version(None));
    }
}
