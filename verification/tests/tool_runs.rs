use xojo_mcp::json::{Json, JsonNumber};
use xojo_mcp::runs::{
    changed, check_item_type, debug_command, debug_control_result, debug_log_missing,
    debug_log_result, format_system_log, json_field_str, log_show_args, parse_analyze_result,
    parse_do_command_result, project_info_output, save_result, saved_project_path,
    system_log_request, analyze_command, FileTime, diagnostic_line, format_diagnostic,
    ide_reply_result, analyze_result_from, do_command_result_from, debug_control_result_from,
};

/// The model of a JSON value that `serde_json` parsed.
fn model(v: &serde_json::Value) -> Json {
    match v {
        serde_json::Value::Null => Json::Null,
        serde_json::Value::Bool(b) => Json::Bool(*b),
        serde_json::Value::Number(n) => {
            if let Some(u) = n.as_u64() {
                Json::Number(JsonNumber::PosInt(u))
            } else if let Some(i) = n.as_i64() {
                Json::Number(JsonNumber::NegInt(i))
            } else {
                Json::Number(JsonNumber::Float(n.to_string()))
            }
        }
        serde_json::Value::String(s) => Json::String(s.clone()),
        serde_json::Value::Array(a) => Json::Array(a.iter().map(model).collect()),
        serde_json::Value::Object(m) => {
            Json::Object(m.iter().map(|(k, v)| (k.clone(), model(v))).collect())
        }
    }
}

fn parse(output: &str) -> Option<Json> {
    serde_json::from_str::<serde_json::Value>(output.trim())
        .ok()
        .map(|v| model(&v))
}

fn analyze(output: &str) -> xojo_mcp::tool::ToolResult {
    let r = parse_analyze_result(output);
    let reply = parse(output);
    let step = analyze_result_from(output, reply.as_ref());
    assert_eq!((&r.output, r.is_error), (&step.output, step.is_error));
    r
}

const HEADER: &str = "Filtering the log data using \"process == \\\"App.debug\\\"\"\nTimestamp                       Thread     Type";

#[test]
fn returns_framework_lines_when_present() {
    let stdout = format!(
        "{HEADER}\n2026-07-05 16:00:00.000 0x1 Default App.debug: (XojoFramework) hello\n\
         2026-07-05 16:00:01.000 0x1 Default App.debug: (libsystem) noise\n"
    );
    let out = format_system_log(&stdout, "App.debug", 60);
    assert!(out.contains("(XojoFramework) hello"));
    assert!(!out.contains("libsystem"));
}

#[test]
fn falls_back_to_raw_entries_when_no_framework_lines() {
    let stdout = format!(
        "{HEADER}\n2026-07-05 16:00:00.000 0x1 Default App.debug: (libsystem) something happened\n"
    );
    let out = format_system_log(&stdout, "App.debug", 60);
    assert!(out.contains("returned 1 raw entry for"));
    assert!(out.contains("something happened"));
    assert!(out.contains("tags the sender differently"));
}

#[test]
fn reports_true_silence_with_debuglog_guidance() {
    let out = format_system_log(HEADER, "App.debug", 60);
    assert!(out.contains("No log entries found"));
    assert!(out.contains("System.DebugLog"));
    assert!(out.contains("MessageBox"));
}

#[test]
fn raw_entries_are_capped_at_two_hundred() {
    let mut stdout = String::new();
    for i in 0..250 {
        stdout.push_str(&format!("2026-07-05 16:00:{i:02}.000 row {i}\r\n"));
    }
    let out = format_system_log(&stdout, "App.debug", 30);
    assert!(out.contains("returned 250 raw entries for process 'App.debug' (showing the first 200 of 250)."));
    assert!(out.contains("row 199"));
    assert!(!out.contains("row 200\n"));
    assert!(!out.contains('\r'));
}

#[test]
fn silence_names_the_process_and_window() {
    let out = format_system_log("", "My App.debug", 3600);
    assert!(out.starts_with("No log entries found for process 'My App.debug' in the last 3600 seconds. "));
}

#[test]
fn analyze_clean_project_is_success() {
    let r = analyze("");
    assert!(!r.is_error);
    assert_eq!(r.output, "No errors or warnings found.");
    let r = analyze("{}");
    assert!(!r.is_error);
}

#[test]
fn analyze_errors_fail_with_summary() {
    let payload = r#"{"buildError":{"errors":[{"type":"Error","message":"Type mismatch","location":"App.Foo","position":"12"}]}}"#;
    let r = analyze(payload);
    assert!(r.is_error);
    assert!(r.output.contains("1 error(s)"));
    assert!(r.output.contains("Error: Type mismatch [App.Foo] (12)"));
}

#[test]
fn analyze_warnings_only_is_success() {
    let payload = r#"{"buildError":{"warnings":[{"message":"Unused local","location":"App.Bar"}]}}"#;
    let r = analyze(payload);
    assert!(!r.is_error);
    assert!(r.output.contains("1 warning(s)"));
    assert!(r.output.contains("Warning: Unused local [App.Bar]"));
}

#[test]
fn analyze_numeric_position_is_rendered() {
    let payload = r#"{"buildError":{"errors":[{"message":"Bad","location":"X","position":7}]}}"#;
    let r = analyze(payload);
    assert!(r.output.contains("(7)"));
}

#[test]
fn analyze_reports_errors_then_warnings() {
    let payload = r#"{"buildError":{"errors":[{"message":"A","location":"L","position":"L"}],"warnings":[{"type":"Deprecated","message":"B"}]}}"#;
    let r = analyze(payload);
    assert!(r.is_error);
    assert_eq!(
        r.output,
        "Analysis results (1 error(s), 1 warning(s)):\nError: A [L]\nDeprecated: B"
    );
}

#[test]
fn analyze_rejects_unexpected_replies() {
    let r = analyze("not json");
    assert!(r.is_error);
    assert_eq!(r.output, "Unexpected non-JSON response: not json");
    let r = analyze(" {\"other\":1} ");
    assert!(r.is_error);
    assert_eq!(r.output, "Unexpected response: {\"other\":1}");
    let r = analyze("{\"buildError\":{}}");
    assert!(!r.is_error);
    assert_eq!(r.output, "No errors or warnings found.");
}

#[test]
fn field_text_shows_other_values_as_json() {
    let entry = parse(r#"{"a":"s","b":null,"c":true,"d":[1,-2],"e":{"k":"v"}}"#).unwrap();
    assert_eq!(json_field_str(&entry, "a"), "s");
    assert_eq!(json_field_str(&entry, "b"), "");
    assert_eq!(json_field_str(&entry, "c"), "true");
    assert_eq!(json_field_str(&entry, "d"), "[1,-2]");
    assert_eq!(json_field_str(&entry, "e"), "{\"k\":\"v\"}");
    assert_eq!(json_field_str(&entry, "missing"), "");
}

#[test]
fn do_command_quiet_output_is_success() {
    let r = parse_do_command_result("  {} ", "Build succeeded.");
    assert!(!r.is_error);
    assert_eq!(r.output, "Build succeeded.");
}

#[test]
fn do_command_lists_build_errors() {
    let out = r#"{"buildError":{"errors":[{"type":"Syntax","message":"Oops","location":"App.Open","position":3},{"message":"Bad"}]}}"#;
    let r = parse_do_command_result(out, "Build succeeded.");
    assert!(r.is_error);
    assert_eq!(
        r.output,
        "Build failed with errors:\n  [Syntax] Oops at App.Open (position 3)\n  [Unknown] Bad\n"
    );
}

#[test]
fn do_command_passes_other_output_through() {
    let r = parse_do_command_result(" /Builds/App.app \n", "Build succeeded.");
    assert!(!r.is_error);
    assert_eq!(r.output, "/Builds/App.app");
}

fn args(pairs: Vec<(&str, Json)>) -> Vec<(String, Json)> {
    pairs.into_iter().map(|(k, v)| (k.to_string(), v)).collect()
}

#[test]
fn system_log_arguments_are_checked() {
    let ok = system_log_request(&args(vec![
        ("process_name", Json::String("My App.debug".into())),
        ("seconds", Json::Number(JsonNumber::PosInt(99999))),
    ]));
    assert_eq!(ok.ok(), Some(("My App.debug".to_string(), 3600)));
    let low = system_log_request(&args(vec![
        ("process_name", Json::String("a".into())),
        ("seconds", Json::Number(JsonNumber::NegInt(-5))),
    ]));
    assert_eq!(low.ok().map(|p| p.1), Some(1));
    let default = system_log_request(&args(vec![("process_name", Json::String("a".into()))]));
    assert_eq!(default.ok().map(|p| p.1), Some(60));
    let bad = system_log_request(&args(vec![("process_name", Json::String("a\"; rm".into()))]));
    let e = bad.err().unwrap();
    assert!(e.is_error);
    assert!(e.output.starts_with("Invalid process_name."));
    let empty = system_log_request(&args(vec![]));
    assert_eq!(
        empty.err().unwrap().output,
        "The `process_name` parameter cannot be empty."
    );
}

#[test]
fn log_show_is_asked_for_the_process() {
    assert_eq!(
        log_show_args("App.debug", 60),
        vec![
            "show".to_string(),
            "--last".to_string(),
            "60s".to_string(),
            "--predicate".to_string(),
            "process == \"App.debug\"".to_string(),
        ]
    );
}

#[test]
fn debug_log_results() {
    assert!(debug_log_missing().output.starts_with("No debug log found at /tmp/xmcp_debug.log."));
    let e = debug_log_result(Err("denied".into()));
    assert!(e.is_error);
    assert_eq!(e.output, "Could not read debug log: denied");
    assert_eq!(debug_log_result(Ok(String::new())).output, "Debug log exists but is empty.");
    assert_eq!(debug_log_result(Ok("trace".into())).output, "trace");
}

#[test]
fn debug_actions_map_to_ide_commands() {
    assert_eq!(debug_command("Step_Over"), Ok("StepOver"));
    assert_eq!(debug_command("pause"), Ok("Pause"));
    assert_eq!(
        debug_command("Jump"),
        Err("Unknown action: \"jump\". Valid actions: step_over, step_into, step_out, resume, pause.".to_string())
    );
    let r = debug_control_result("resume", "  ");
    assert_eq!(r.output, "Debug action \"resume\" executed.");
    let r = debug_control_result("Step_Over", "");
    assert_eq!(r.output, "Debug action \"step_over\" executed.");
    assert!(!r.is_error);
    let r = debug_control_result("resume", "{\"buildError\":{}}");
    assert!(r.is_error);
    assert_eq!(r.output, "IDE error: {\"buildError\":{}}");
}

#[test]
fn analyze_scope_selects_the_command() {
    assert_eq!(analyze_command("ITEM"), "CheckItemErrors");
    assert_eq!(analyze_command("project"), "CheckProjectErrors");
    assert_eq!(analyze_command(""), "CheckProjectErrors");
}

#[test]
fn item_types_are_checked() {
    assert!(check_item_type("NewClass").is_ok());
    assert!(check_item_type("AddEventImplementation").is_ok());
    let e = check_item_type("NewThing").err().unwrap();
    assert!(e.is_error);
    assert!(e.output.starts_with("Invalid item_type 'NewThing'. Must be one of: NewClass, NewModule, "));
    assert!(e.output.ends_with("NewFolder, AddEventImplementation"));
}

#[test]
fn project_info_gets_its_directory() {
    let out = "Project: /Users/me/App/App.xojo_project\nXojo Version: 2025.1";
    assert_eq!(
        project_info_output(out),
        format!("{out}\nProject Directory: /Users/me/App")
    );
    assert_eq!(project_info_output("Xojo Version: 1"), "Xojo Version: 1");
}

#[test]
fn saving_reports_whether_the_disk_changed() {
    let t = |n| Some(FileTime { nanos: n });
    assert!(changed(t(2), t(1)));
    assert!(!changed(t(1), t(1)));
    assert!(changed(t(1), None));
    assert!(!changed(None, t(1)));
    assert_eq!(save_result(true).output, "Project saved.");
    assert_eq!(save_result(false).output, "No changes to save.");
    assert_eq!(saved_project_path("  /p/App.xojo_project\n").ok(), Some("/p/App.xojo_project".to_string()));
    assert!(saved_project_path("   ").err().unwrap().is_error);
}

#[test]
fn diagnostic_lines_from_member_texts() {
    assert_eq!(diagnostic_line("", "bad", "App.Open", "App.Open", "Error"), "Error: bad [App.Open]");
    assert_eq!(diagnostic_line("Warning", "w", "", "12", "Error"), "Warning: w (12)");
    let entry = parse("{\"message\":\"m\",\"location\":{\"z\":1,\"a\":[true,null]}}").unwrap();
    assert_eq!(format_diagnostic(&entry, "Error"), "Error: m [{\"a\":[true,null],\"z\":1}]");
}

#[test]
fn field_texts_are_displayed_by_serde() {
    let obj = Json::Object(vec![(
        "v".to_string(),
        Json::Object(vec![
            ("b".to_string(), Json::Number(JsonNumber::NegInt(-3))),
            ("a".to_string(), Json::String("q\"".to_string())),
        ]),
    )]);
    assert_eq!(json_field_str(&obj, "v"), "{\"a\":\"q\\\"\",\"b\":-3}");
    assert_eq!(obj.get("v").unwrap().display(), "{\"a\":\"q\\\"\",\"b\":-3}");
}

#[test]
fn ide_replies_become_tool_results() {
    let r = ide_reply_result(&parse("{\"response\":\"done\",\"tag\":\"xmcp_1\"}").unwrap());
    assert_eq!(r.output, "done");
    assert!(!r.is_error);
    let r = ide_reply_result(&parse("{\"response\":\"ERROR: nope\"}").unwrap());
    assert_eq!(r.output, "ERROR: nope");
    assert!(r.is_error);
    let r = ide_reply_result(&parse("{\"tag\":\"t\",\"response\":7}").unwrap());
    assert_eq!(r.output, "{\"response\":7,\"tag\":\"t\"}");
    assert!(!r.is_error);
}

#[test]
fn output_that_is_not_json_is_judged_as_such() {
    let r = parse_analyze_result("Compiler crashed");
    assert!(r.is_error);
    assert_eq!(r.output, "Unexpected non-JSON response: Compiler crashed");
    let r = do_command_result_from(" {\"buildError\":{\"errors\":[]}} ", None, "ok");
    assert!(!r.is_error);
    let r = debug_control_result_from("Pause", "{\"x\":1}", None);
    assert_eq!(r.output, "{\"x\":1}");
}
