use xojo_mcp::catalog::{all_tools, EditCode, GetCode, SetCode};
use xojo_mcp::tool::Tool;

#[test]
fn the_catalog_offers_the_known_tools() {
    let tools = all_tools();
    let names: Vec<&str> = tools.iter().map(|t| t.name).collect();
    assert_eq!(names.len(), 26);
    assert_eq!(names[0], "get_debug_log");
    assert_eq!(names[21], "debug_control");
    for n in ["edit_code", "search_docs", "lookup_class", "list_doc_topics", "estimate_request_cost"] {
        assert!(names.contains(&n), "{n} should be offered");
    }
    let mutating: Vec<&str> = tools.iter().filter(|t| t.mutates).map(|t| t.name).collect();
    assert_eq!(
        mutating,
        vec!["set_code", "edit_code", "set_selected_text", "create_project_item", "revert_project", "save_project"]
    );
}

#[test]
fn tools_describe_themselves() {
    assert_eq!(GetCode.name(), "get_code");
    assert!(!GetCode.mutates());
    assert!(SetCode.mutates());
    let params = SetCode.parameters();
    assert_eq!(params.len(), 2);
    assert_eq!(params[0].name, "code");
    assert!(params[0].required);
    assert!(!params[1].required);
}

#[test]
fn edit_code_describes_itself() {
    assert_eq!(EditCode.name(), "edit_code");
    assert!(EditCode.mutates());
    let params = EditCode.parameters();
    let names: Vec<&str> = params.iter().map(|p| p.name).collect();
    assert_eq!(names, vec!["location", "old_string", "new_string", "replace_all"]);
    assert!(params[1].required && params[2].required);
}
