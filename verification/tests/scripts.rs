use xojo_mcp::scripts::{
    build_string_variable_script, escape_ide_string, indent_lines,
    build_script, constant_value_script, create_item_script, get_code_script,
    item_description_script, list_items_script, replace_selection_body, run_script,
    select_item_script, stop_script, code_indent, code_write_lines, replace_selection_script,
    set_code_script,
};

#[test]
fn command_scripts() {
    assert_eq!(build_script(24, true), "DoCommand \"BuildApp 24 True\"\nPrint \"\"");
    assert_eq!(build_script(0, false), "DoCommand \"BuildApp 0 False\"\nPrint \"\"");
    assert_eq!(run_script(), "DoCommand \"RunApp\"\nPrint \"\"");
    assert_eq!(stop_script(), "DoCommand \"Kill\"\nPrint \"Debug session stopped.\"");
}

#[test]
fn navigation_scripts() {
    assert_eq!(list_items_script("App"), "Print SubLocations(\"App\")");
    assert!(select_item_script("Module1.M").starts_with(
        "Dim result As Boolean = SelectProjectItem(\"Module1.M\")\nIf result Then\n"
    ));
    assert!(get_code_script(None).starts_with("Try\n  Print Text\n"));
    assert!(get_code_script(Some("App.Open")).starts_with("If SelectProjectItem(\"App.Open\") Then\n  Try\n"));
}

#[test]
fn item_scripts() {
    assert_eq!(item_description_script(None, None), "Print ItemDescription");
    assert_eq!(
        item_description_script(Some("App"), Some("Hi")),
        "If SelectProjectItem(\"App\") Then\n  ItemDescription = \"Hi\"\nPrint \"OK\"\nElse\n  Print \"ERROR: Could not select 'App'.\"\nEnd If"
    );
    assert_eq!(constant_value_script("kV", None), "Print ConstantValue(\"kV\")");
    assert_eq!(
        constant_value_script("kV", Some("2")),
        "ConstantValue(\"kV\") = \"2\"\nPrint \"OK\""
    );
    assert_eq!(
        create_item_script("NewClass", None),
        "DoCommand \"NewClass\"\nPrint \"Created NewClass at: \" + Location"
    );
    assert_eq!(
        create_item_script("NewMethod", Some("Module1")),
        "If SelectProjectItem(\"Module1\") Then\n  DoCommand \"NewMethod\"\n  Print \"Created NewMethod at: \" + Location\nElse\n  Print \"ERROR: Could not select 'Module1'.\"\nEnd If"
    );
}

#[test]
fn selection_replacement_body() {
    assert_eq!(
        replace_selection_body(-1, 0),
        "  SelectedText = __text\n  Print \"Text replaced successfully.\""
    );
    assert_eq!(
        replace_selection_body(4, 2),
        "  SelectionStart = 4\n  SelectionLength = 2\n  SelectedText = __text\n  Print \"Text replaced successfully.\""
    );
}

#[test]
fn set_code_scripts() {
    assert_eq!(code_write_lines(), "Text = __code\nPrint \"Code written to: \" + Location");
    assert_eq!(code_indent(false), "  ");
    assert_eq!(code_indent(true), "    ");
    assert_eq!(
        set_code_script("Dim __code As String = \"x\"", "  W", None),
        "Dim __code As String = \"x\"\nTry\n  W\nCatch\n  Print \"ERROR: No code editor is active. If this is a window event handler, edit the .xojo_window file directly and use revert_project.\"\nEnd Try"
    );
    assert_eq!(
        set_code_script("V", "    W", Some("App.Open")),
        "V\nIf SelectProjectItem(\"App.Open\") Then\n  Try\n    W\n  Catch\n    Print \"ERROR: No code editor is active for 'App.Open'. If this is a window event handler, edit the .xojo_window file directly and use revert_project.\"\n  End Try\nElse\n  Print \"ERROR: Could not select 'App.Open'.\"\nEnd If"
    );
}

#[test]
fn replace_selection_scripts() {
    assert_eq!(
        replace_selection_script("V", 3, 4),
        "V\nTry\n  SelectionStart = 3\n  SelectionLength = 4\n  SelectedText = __text\n  Print \"Text replaced successfully.\"\nCatch\n  Print \"ERROR: No code editor is active.\"\nEnd Try"
    );
    assert_eq!(
        replace_selection_script("V", -1, 0),
        "V\nTry\n  SelectedText = __text\n  Print \"Text replaced successfully.\"\nCatch\n  Print \"ERROR: No code editor is active.\"\nEnd Try"
    );
}

#[test]
fn script_text_helpers() {
    assert_eq!(escape_ide_string("say \"hi\""), "say \"\"hi\"\"");
    assert_eq!(escape_ide_string(""), "");
    assert_eq!(
        build_string_variable_script("__code", "a\nb \"q\"\n"),
        "Dim __code As String = \"a\" + EndOfLine + \"b \"\"q\"\"\" + EndOfLine + \"\""
    );
    assert_eq!(build_string_variable_script("__t", ""), "Dim __t As String = \"\"");
    assert_eq!(indent_lines("x\ny\n", "  "), "  x\n  y");
    assert_eq!(indent_lines("", "  "), "");
}
