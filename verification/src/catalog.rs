//! The tools the server offers: each one's name, description, parameters,
//! and whether it changes the project.

use vstd::prelude::*;
use crate::tool::{ParamType, Tool, ToolInfo, ToolParam};

verus! {

/// The mathematical form of a parameter: its name, type, description, and
/// whether it is required (no parameter here has a default).
pub open spec fn param_view(p: ToolParam) -> (Seq<char>, ParamType, Seq<char>, bool) {
    (p.name@, p.param_type, p.description@, p.required)
}

/// The mathematical form of a tool description.
pub open spec fn info_view(t: ToolInfo) -> (Seq<char>, Seq<char>, Seq<(Seq<char>, ParamType, Seq<char>, bool)>, bool) {
    (t.name@, t.description@, t.params@.map_values(|p: ToolParam| param_view(p)), t.mutates)
}

/// No parameter of `params` has a default value.
pub open spec fn no_defaults(params: Seq<ToolParam>) -> bool {
    forall|i: int| 0 <= i < params.len() ==> (#[trigger] params[i]).default is None
}

/// The `get_debug_log` tool.
pub struct GetDebugLog;

impl GetDebugLog {
    /// The parameters of this tool.
    pub open spec fn params_spec() -> Seq<(Seq<char>, ParamType, Seq<char>, bool)> {
        seq![
            ("clear"@, ParamType::Boolean, "Delete log file after reading"@, false),
        ]
    }

    /// The description of this tool.
    pub open spec fn description_spec() -> Seq<char> {
        "Reads the xmcp debug log file at /tmp/xmcp_debug.log \
             (written by App.UnhandledException handlers). Returns exception details \
             or empty message if no log exists."@
    }
}

impl Tool for GetDebugLog {
    fn name(&self) -> (r: &'static str)
        ensures
            r@ == "get_debug_log"@,
    {
        "get_debug_log"
    }

    fn description(&self) -> (r: &'static str)
        ensures
            r@ == Self::description_spec(),
    {
        "Reads the xmcp debug log file at /tmp/xmcp_debug.log \
         (written by App.UnhandledException handlers). Returns exception details \
         or empty message if no log exists."
    }

    fn parameters(&self) -> (r: Vec<ToolParam>)
        ensures
            r@.map_values(|p: ToolParam| param_view(p)) == Self::params_spec(),
            no_defaults(r@),
    {
        let mut p: Vec<ToolParam> = Vec::new();
        p.push(ToolParam {
            name: "clear",
            param_type: ParamType::Boolean,
            description: "Delete log file after reading",
            required: false,
            default: None,
        });
        assert(p@.map_values(|p: ToolParam| param_view(p)) =~= Self::params_spec());
        p
    }

    fn mutates(&self) -> (r: bool)
        ensures
            r == false,
    {
        false
    }
}

/// The `get_system_log` tool.
pub struct GetSystemLog;

impl GetSystemLog {
    /// The parameters of this tool.
    pub open spec fn params_spec() -> Seq<(Seq<char>, ParamType, Seq<char>, bool)> {
        seq![
            ("process_name"@, ParamType::String, "Process name filter (e.g. 'MyApp.debug')"@, true),
            ("seconds"@, ParamType::Integer, "How many seconds back to search (default 60, max 3600)"@, false),
        ]
    }

    /// The description of this tool.
    pub open spec fn description_spec() -> Seq<char> {
        "Reads recent System.DebugLog output from the macOS unified log for a running \
             Xojo debug app (process name = app name + '.debug')."@
    }
}

impl Tool for GetSystemLog {
    fn name(&self) -> (r: &'static str)
        ensures
            r@ == "get_system_log"@,
    {
        "get_system_log"
    }

    fn description(&self) -> (r: &'static str)
        ensures
            r@ == Self::description_spec(),
    {
        "Reads recent System.DebugLog output from the macOS unified log for a running \
         Xojo debug app (process name = app name + '.debug')."
    }

    fn parameters(&self) -> (r: Vec<ToolParam>)
        ensures
            r@.map_values(|p: ToolParam| param_view(p)) == Self::params_spec(),
            no_defaults(r@),
    {
        let mut p: Vec<ToolParam> = Vec::new();
        p.push(ToolParam {
            name: "process_name",
            param_type: ParamType::String,
            description: "Process name filter (e.g. 'MyApp.debug')",
            required: true,
            default: None,
        });
        p.push(ToolParam {
            name: "seconds",
            param_type: ParamType::Integer,
            description: "How many seconds back to search (default 60, max 3600)",
            required: false,
            default: None,
        });
        assert(p@.map_values(|p: ToolParam| param_view(p)) =~= Self::params_spec());
        p
    }

    fn mutates(&self) -> (r: bool)
        ensures
            r == false,
    {
        false
    }
}

/// The `list_project_items` tool.
pub struct ListProjectItems;

impl ListProjectItems {
    /// The parameters of this tool.
    pub open spec fn params_spec() -> Seq<(Seq<char>, ParamType, Seq<char>, bool)> {
        seq![
            ("location"@, ParamType::String, "Dot-separated project path (e.g. 'App' or 'Module1.Method1'). Leave empty for top-level items."@, false),
        ]
    }

    /// The description of this tool.
    pub open spec fn description_spec() -> Seq<char> {
        "Lists child items at a given project location in the Xojo IDE Navigator. \
             Returns tab-delimited list. Empty location = top-level items."@
    }
}

impl Tool for ListProjectItems {
    fn name(&self) -> (r: &'static str)
        ensures
            r@ == "list_project_items"@,
    {
        "list_project_items"
    }

    fn description(&self) -> (r: &'static str)
        ensures
            r@ == Self::description_spec(),
    {
        "Lists child items at a given project location in the Xojo IDE Navigator. \
         Returns tab-delimited list. Empty location = top-level items."
    }

    fn parameters(&self) -> (r: Vec<ToolParam>)
        ensures
            r@.map_values(|p: ToolParam| param_view(p)) == Self::params_spec(),
            no_defaults(r@),
    {
        let mut p: Vec<ToolParam> = Vec::new();
        p.push(ToolParam {
            name: "location",
            param_type: ParamType::String,
            description: "Dot-separated project path (e.g. 'App' or 'Module1.Method1'). Leave empty for top-level items.",
            required: false,
            default: None,
        });
        assert(p@.map_values(|p: ToolParam| param_view(p)) =~= Self::params_spec());
        p
    }

    fn mutates(&self) -> (r: bool)
        ensures
            r == false,
    {
        false
    }
}

/// The `get_current_location` tool.
pub struct GetCurrentLocation;

impl GetCurrentLocation {
    /// The parameters of this tool.
    pub open spec fn params_spec() -> Seq<(Seq<char>, ParamType, Seq<char>, bool)> {
        seq![]
    }

    /// The description of this tool.
    pub open spec fn description_spec() -> Seq<char> {
        "Returns the currently selected location in the Xojo IDE Navigator and its type \
             (e.g. Class, Method, Window)."@
    }
}

impl Tool for GetCurrentLocation {
    fn name(&self) -> (r: &'static str)
        ensures
            r@ == "get_current_location"@,
    {
        "get_current_location"
    }

    fn description(&self) -> (r: &'static str)
        ensures
            r@ == Self::description_spec(),
    {
        "Returns the currently selected location in the Xojo IDE Navigator and its type \
         (e.g. Class, Method, Window)."
    }

    fn parameters(&self) -> (r: Vec<ToolParam>)
        ensures
            r@.map_values(|p: ToolParam| param_view(p)) == Self::params_spec(),
            no_defaults(r@),
    {
        let mut p: Vec<ToolParam> = Vec::new();
        assert(p@.map_values(|p: ToolParam| param_view(p)) =~= Self::params_spec());
        p
    }

    fn mutates(&self) -> (r: bool)
        ensures
            r == false,
    {
        false
    }
}

/// The `select_project_item` tool.
pub struct SelectProjectItem;

impl SelectProjectItem {
    /// The parameters of this tool.
    pub open spec fn params_spec() -> Seq<(Seq<char>, ParamType, Seq<char>, bool)> {
        seq![
            ("item_path"@, ParamType::String, "Dot-separated path (e.g. 'App', 'Module1.MyMethod')"@, true),
        ]
    }

    /// The description of this tool.
    pub open spec fn description_spec() -> Seq<char> {
        "Selects and navigates to a specific item in the Xojo IDE Navigator. \
             Use dot-separated paths."@
    }
}

impl Tool for SelectProjectItem {
    fn name(&self) -> (r: &'static str)
        ensures
            r@ == "select_project_item"@,
    {
        "select_project_item"
    }

    fn description(&self) -> (r: &'static str)
        ensures
            r@ == Self::description_spec(),
    {
        "Selects and navigates to a specific item in the Xojo IDE Navigator. \
         Use dot-separated paths."
    }

    fn parameters(&self) -> (r: Vec<ToolParam>)
        ensures
            r@.map_values(|p: ToolParam| param_view(p)) == Self::params_spec(),
            no_defaults(r@),
    {
        let mut p: Vec<ToolParam> = Vec::new();
        p.push(ToolParam {
            name: "item_path",
            param_type: ParamType::String,
            description: "Dot-separated path (e.g. 'App', 'Module1.MyMethod')",
            required: true,
            default: None,
        });
        assert(p@.map_values(|p: ToolParam| param_view(p)) =~= Self::params_spec());
        p
    }

    fn mutates(&self) -> (r: bool)
        ensures
            r == false,
    {
        false
    }
}

/// The `get_code` tool.
pub struct GetCode;

impl GetCode {
    /// The parameters of this tool.
    pub open spec fn params_spec() -> Seq<(Seq<char>, ParamType, Seq<char>, bool)> {
        seq![
            ("location"@, ParamType::String, "Dot-separated path (e.g. 'Module1.Method1'). Reads current location if empty."@, false),
        ]
    }

    /// The description of this tool.
    pub open spec fn description_spec() -> Seq<char> {
        "Reads the source code at the current or specified location in the Xojo IDE."@
    }
}

impl Tool for GetCode {
    fn name(&self) -> (r: &'static str)
        ensures
            r@ == "get_code"@,
    {
        "get_code"
    }

    fn description(&self) -> (r: &'static str)
        ensures
            r@ == Self::description_spec(),
    {
        "Reads the source code at the current or specified location in the Xojo IDE."
    }

    fn parameters(&self) -> (r: Vec<ToolParam>)
        ensures
            r@.map_values(|p: ToolParam| param_view(p)) == Self::params_spec(),
            no_defaults(r@),
    {
        let mut p: Vec<ToolParam> = Vec::new();
        p.push(ToolParam {
            name: "location",
            param_type: ParamType::String,
            description: "Dot-separated path (e.g. 'Module1.Method1'). Reads current location if empty.",
            required: false,
            default: None,
        });
        assert(p@.map_values(|p: ToolParam| param_view(p)) =~= Self::params_spec());
        p
    }

    fn mutates(&self) -> (r: bool)
        ensures
            r == false,
    {
        false
    }
}

/// The `set_code` tool.
pub struct SetCode;

impl SetCode {
    /// The parameters of this tool.
    pub open spec fn params_spec() -> Seq<(Seq<char>, ParamType, Seq<char>, bool)> {
        seq![
            ("code"@, ParamType::String, "Source code to write"@, true),
            ("location"@, ParamType::String, "Dot-separated path to navigate to first"@, false),
        ]
    }

    /// The description of this tool.
    pub open spec fn description_spec() -> Seq<char> {
        "Writes source code to the current or specified location in the Xojo IDE. \
             Replaces entire code content."@
    }
}

impl Tool for SetCode {
    fn name(&self) -> (r: &'static str)
        ensures
            r@ == "set_code"@,
    {
        "set_code"
    }

    fn description(&self) -> (r: &'static str)
        ensures
            r@ == Self::description_spec(),
    {
        "Writes source code to the current or specified location in the Xojo IDE. \
         Replaces entire code content."
    }

    fn parameters(&self) -> (r: Vec<ToolParam>)
        ensures
            r@.map_values(|p: ToolParam| param_view(p)) == Self::params_spec(),
            no_defaults(r@),
    {
        let mut p: Vec<ToolParam> = Vec::new();
        p.push(ToolParam {
            name: "code",
            param_type: ParamType::String,
            description: "Source code to write",
            required: true,
            default: None,
        });
        p.push(ToolParam {
            name: "location",
            param_type: ParamType::String,
            description: "Dot-separated path to navigate to first",
            required: false,
            default: None,
        });
        assert(p@.map_values(|p: ToolParam| param_view(p)) =~= Self::params_spec());
        p
    }

    fn mutates(&self) -> (r: bool)
        ensures
            r == true,
    {
        true
    }
}

/// The `get_selected_text` tool.
pub struct GetSelectedText;

impl GetSelectedText {
    /// The parameters of this tool.
    pub open spec fn params_spec() -> Seq<(Seq<char>, ParamType, Seq<char>, bool)> {
        seq![]
    }

    /// The description of this tool.
    pub open spec fn description_spec() -> Seq<char> {
        "Returns the currently selected text in the Xojo IDE code editor, \
             along with selection start position and length."@
    }
}

impl Tool for GetSelectedText {
    fn name(&self) -> (r: &'static str)
        ensures
            r@ == "get_selected_text"@,
    {
        "get_selected_text"
    }

    fn description(&self) -> (r: &'static str)
        ensures
            r@ == Self::description_spec(),
    {
        "Returns the currently selected text in the Xojo IDE code editor, \
         along with selection start position and length."
    }

    fn parameters(&self) -> (r: Vec<ToolParam>)
        ensures
            r@.map_values(|p: ToolParam| param_view(p)) == Self::params_spec(),
            no_defaults(r@),
    {
        let mut p: Vec<ToolParam> = Vec::new();
        assert(p@.map_values(|p: ToolParam| param_view(p)) =~= Self::params_spec());
        p
    }

    fn mutates(&self) -> (r: bool)
        ensures
            r == false,
    {
        false
    }
}

/// The `set_selected_text` tool.
pub struct SetSelectedText;

impl SetSelectedText {
    /// The parameters of this tool.
    pub open spec fn params_spec() -> Seq<(Seq<char>, ParamType, Seq<char>, bool)> {
        seq![
            ("text"@, ParamType::String, "Replacement text to insert"@, true),
            ("selection_start"@, ParamType::Integer, "Character offset to set before replacing. Skipped if -1."@, false),
            ("selection_length"@, ParamType::Integer, "Characters to select before replacing"@, false),
        ]
    }

    /// The description of this tool.
    pub open spec fn description_spec() -> Seq<char> {
        "Replaces the currently selected text in the Xojo IDE code editor with new text. \
             Can optionally set selection position first."@
    }
}

impl Tool for SetSelectedText {
    fn name(&self) -> (r: &'static str)
        ensures
            r@ == "set_selected_text"@,
    {
        "set_selected_text"
    }

    fn description(&self) -> (r: &'static str)
        ensures
            r@ == Self::description_spec(),
    {
        "Replaces the currently selected text in the Xojo IDE code editor with new text. \
         Can optionally set selection position first."
    }

    fn parameters(&self) -> (r: Vec<ToolParam>)
        ensures
            r@.map_values(|p: ToolParam| param_view(p)) == Self::params_spec(),
            no_defaults(r@),
    {
        let mut p: Vec<ToolParam> = Vec::new();
        p.push(ToolParam {
            name: "text",
            param_type: ParamType::String,
            description: "Replacement text to insert",
            required: true,
            default: None,
        });
        p.push(ToolParam {
            name: "selection_start",
            param_type: ParamType::Integer,
            description: "Character offset to set before replacing. Skipped if -1.",
            required: false,
            default: None,
        });
        p.push(ToolParam {
            name: "selection_length",
            param_type: ParamType::Integer,
            description: "Characters to select before replacing",
            required: false,
            default: None,
        });
        assert(p@.map_values(|p: ToolParam| param_view(p)) =~= Self::params_spec());
        p
    }

    fn mutates(&self) -> (r: bool)
        ensures
            r == true,
    {
        true
    }
}

/// The `build_project` tool.
pub struct BuildProject;

impl BuildProject {
    /// The parameters of this tool.
    pub open spec fn params_spec() -> Seq<(Seq<char>, ParamType, Seq<char>, bool)> {
        seq![
            ("build_type"@, ParamType::Integer, "Build target type (0=Default, 5=macOS Cocoa, 9=Windows 32-bit, \
                              14=Windows 64-bit, 16=Linux 32-bit, 17=Linux 64-bit, 18=Linux ARM, \
                              24=macOS Universal)."@, false),
            ("reveal"@, ParamType::Boolean, "Whether to reveal built app in Finder/Explorer."@, false),
        ]
    }

    /// The description of this tool.
    pub open spec fn description_spec() -> Seq<char> {
        "Builds the current Xojo project. Returns the path to the built application \
             on success, or build errors on failure."@
    }
}

impl Tool for BuildProject {
    fn name(&self) -> (r: &'static str)
        ensures
            r@ == "build_project"@,
    {
        "build_project"
    }

    fn description(&self) -> (r: &'static str)
        ensures
            r@ == Self::description_spec(),
    {
        "Builds the current Xojo project. Returns the path to the built application \
         on success, or build errors on failure."
    }

    fn parameters(&self) -> (r: Vec<ToolParam>)
        ensures
            r@.map_values(|p: ToolParam| param_view(p)) == Self::params_spec(),
            no_defaults(r@),
    {
        let mut p: Vec<ToolParam> = Vec::new();
        p.push(ToolParam {
            name: "build_type",
            param_type: ParamType::Integer,
            description: "Build target type (0=Default, 5=macOS Cocoa, 9=Windows 32-bit, \
                              14=Windows 64-bit, 16=Linux 32-bit, 17=Linux 64-bit, 18=Linux ARM, \
                              24=macOS Universal).",
            required: false,
            default: None,
        });
        p.push(ToolParam {
            name: "reveal",
            param_type: ParamType::Boolean,
            description: "Whether to reveal built app in Finder/Explorer.",
            required: false,
            default: None,
        });
        assert(p@.map_values(|p: ToolParam| param_view(p)) =~= Self::params_spec());
        p
    }

    fn mutates(&self) -> (r: bool)
        ensures
            r == false,
    {
        false
    }
}

/// The `run_project` tool.
pub struct RunProject;

impl RunProject {
    /// The parameters of this tool.
    pub open spec fn params_spec() -> Seq<(Seq<char>, ParamType, Seq<char>, bool)> {
        seq![]
    }

    /// The description of this tool.
    pub open spec fn description_spec() -> Seq<char> {
        "Runs the current Xojo project in debug mode."@
    }
}

impl Tool for RunProject {
    fn name(&self) -> (r: &'static str)
        ensures
            r@ == "run_project"@,
    {
        "run_project"
    }

    fn description(&self) -> (r: &'static str)
        ensures
            r@ == Self::description_spec(),
    {
        "Runs the current Xojo project in debug mode."
    }

    fn parameters(&self) -> (r: Vec<ToolParam>)
        ensures
            r@.map_values(|p: ToolParam| param_view(p)) == Self::params_spec(),
            no_defaults(r@),
    {
        let mut p: Vec<ToolParam> = Vec::new();
        assert(p@.map_values(|p: ToolParam| param_view(p)) =~= Self::params_spec());
        p
    }

    fn mutates(&self) -> (r: bool)
        ensures
            r == false,
    {
        false
    }
}

/// The `stop_project` tool.
pub struct StopProject;

impl StopProject {
    /// The parameters of this tool.
    pub open spec fn params_spec() -> Seq<(Seq<char>, ParamType, Seq<char>, bool)> {
        seq![]
    }

    /// The description of this tool.
    pub open spec fn description_spec() -> Seq<char> {
        "Stops the currently running Xojo debug session."@
    }
}

impl Tool for StopProject {
    fn name(&self) -> (r: &'static str)
        ensures
            r@ == "stop_project"@,
    {
        "stop_project"
    }

    fn description(&self) -> (r: &'static str)
        ensures
            r@ == Self::description_spec(),
    {
        "Stops the currently running Xojo debug session."
    }

    fn parameters(&self) -> (r: Vec<ToolParam>)
        ensures
            r@.map_values(|p: ToolParam| param_view(p)) == Self::params_spec(),
            no_defaults(r@),
    {
        let mut p: Vec<ToolParam> = Vec::new();
        assert(p@.map_values(|p: ToolParam| param_view(p)) =~= Self::params_spec());
        p
    }

    fn mutates(&self) -> (r: bool)
        ensures
            r == false,
    {
        false
    }
}

/// The `create_project_item` tool.
pub struct CreateProjectItem;

impl CreateProjectItem {
    /// The parameters of this tool.
    pub open spec fn params_spec() -> Seq<(Seq<char>, ParamType, Seq<char>, bool)> {
        seq![
            ("item_type"@, ParamType::String, "Item type to create. Must be one of: NewClass, NewModule, NewMethod, \
                              NewProperty, NewConstant, NewEvent, NewNote, NewMenuHandler, \
                              NewComputedProperty, NewSharedMethod, NewSharedProperty, NewEnum, \
                              NewStructure, NewDelegate, NewInterface, NewWindow, \
                              NewContainerControl, NewFolder, AddEventImplementation"@, true),
            ("parent_location"@, ParamType::String, "Dot-separated path to navigate to first (e.g. 'Module1')"@, false),
        ]
    }

    /// The description of this tool.
    pub open spec fn description_spec() -> Seq<char> {
        "Creates a new project item in the Xojo IDE. First navigates to the target \
             location (if specified), then creates the item."@
    }
}

impl Tool for CreateProjectItem {
    fn name(&self) -> (r: &'static str)
        ensures
            r@ == "create_project_item"@,
    {
        "create_project_item"
    }

    fn description(&self) -> (r: &'static str)
        ensures
            r@ == Self::description_spec(),
    {
        "Creates a new project item in the Xojo IDE. First navigates to the target \
         location (if specified), then creates the item."
    }

    fn parameters(&self) -> (r: Vec<ToolParam>)
        ensures
            r@.map_values(|p: ToolParam| param_view(p)) == Self::params_spec(),
            no_defaults(r@),
    {
        let mut p: Vec<ToolParam> = Vec::new();
        p.push(ToolParam {
            name: "item_type",
            param_type: ParamType::String,
            description: "Item type to create. Must be one of: NewClass, NewModule, NewMethod, \
                              NewProperty, NewConstant, NewEvent, NewNote, NewMenuHandler, \
                              NewComputedProperty, NewSharedMethod, NewSharedProperty, NewEnum, \
                              NewStructure, NewDelegate, NewInterface, NewWindow, \
                              NewContainerControl, NewFolder, AddEventImplementation",
            required: true,
            default: None,
        });
        p.push(ToolParam {
            name: "parent_location",
            param_type: ParamType::String,
            description: "Dot-separated path to navigate to first (e.g. 'Module1')",
            required: false,
            default: None,
        });
        assert(p@.map_values(|p: ToolParam| param_view(p)) =~= Self::params_spec());
        p
    }

    fn mutates(&self) -> (r: bool)
        ensures
            r == true,
    {
        true
    }
}

/// The `run_ide_script` tool.
pub struct RunIdeScript;

impl RunIdeScript {
    /// The parameters of this tool.
    pub open spec fn params_spec() -> Seq<(Seq<char>, ParamType, Seq<char>, bool)> {
        seq![
            ("script"@, ParamType::String, "IDE script code (XojoScript syntax). Use Print for output."@, true),
            ("timeout"@, ParamType::Integer, "Timeout in milliseconds (default 10000)"@, false),
        ]
    }

    /// The description of this tool.
    pub open spec fn description_spec() -> Seq<char> {
        "Executes an arbitrary Xojo IDE script. Use Print to return values. \
             Powerful escape hatch — IDE scripting can quit Xojo, close/reopen \
             projects, create or delete items, write files, and invoke shell \
             commands via DoShellCommand. Prefer a dedicated tool when one fits \
             (list_project_items, get_code, build_project, etc.); use this only \
             when nothing else does, and pause before running anything that \
             quits the IDE, deletes items, or touches the shell."@
    }
}

impl Tool for RunIdeScript {
    fn name(&self) -> (r: &'static str)
        ensures
            r@ == "run_ide_script"@,
    {
        "run_ide_script"
    }

    fn description(&self) -> (r: &'static str)
        ensures
            r@ == Self::description_spec(),
    {
        "Executes an arbitrary Xojo IDE script. Use Print to return values. \
         Powerful escape hatch — IDE scripting can quit Xojo, close/reopen \
         projects, create or delete items, write files, and invoke shell \
         commands via DoShellCommand. Prefer a dedicated tool when one fits \
         (list_project_items, get_code, build_project, etc.); use this only \
         when nothing else does, and pause before running anything that \
         quits the IDE, deletes items, or touches the shell."
    }

    fn parameters(&self) -> (r: Vec<ToolParam>)
        ensures
            r@.map_values(|p: ToolParam| param_view(p)) == Self::params_spec(),
            no_defaults(r@),
    {
        let mut p: Vec<ToolParam> = Vec::new();
        p.push(ToolParam {
            name: "script",
            param_type: ParamType::String,
            description: "IDE script code (XojoScript syntax). Use Print for output.",
            required: true,
            default: None,
        });
        p.push(ToolParam {
            name: "timeout",
            param_type: ParamType::Integer,
            description: "Timeout in milliseconds (default 10000)",
            required: false,
            default: None,
        });
        assert(p@.map_values(|p: ToolParam| param_view(p)) =~= Self::params_spec());
        p
    }

    fn mutates(&self) -> (r: bool)
        ensures
            r == false,
    {
        false
    }
}

/// The `get_project_info` tool.
pub struct GetProjectInfo;

impl GetProjectInfo {
    /// The parameters of this tool.
    pub open spec fn params_spec() -> Seq<(Seq<char>, ParamType, Seq<char>, bool)> {
        seq![]
    }

    /// The description of this tool.
    pub open spec fn description_spec() -> Seq<char> {
        "Returns information about the currently open Xojo project including path, \
             Xojo IDE version, and selected item."@
    }
}

impl Tool for GetProjectInfo {
    fn name(&self) -> (r: &'static str)
        ensures
            r@ == "get_project_info"@,
    {
        "get_project_info"
    }

    fn description(&self) -> (r: &'static str)
        ensures
            r@ == Self::description_spec(),
    {
        "Returns information about the currently open Xojo project including path, \
         Xojo IDE version, and selected item."
    }

    fn parameters(&self) -> (r: Vec<ToolParam>)
        ensures
            r@.map_values(|p: ToolParam| param_view(p)) == Self::params_spec(),
            no_defaults(r@),
    {
        let mut p: Vec<ToolParam> = Vec::new();
        assert(p@.map_values(|p: ToolParam| param_view(p)) =~= Self::params_spec());
        p
    }

    fn mutates(&self) -> (r: bool)
        ensures
            r == false,
    {
        false
    }
}

/// The `revert_project` tool.
pub struct RevertProject;

impl RevertProject {
    /// The parameters of this tool.
    pub open spec fn params_spec() -> Seq<(Seq<char>, ParamType, Seq<char>, bool)> {
        seq![]
    }

    /// The description of this tool.
    pub open spec fn description_spec() -> Seq<char> {
        "Reverts the current Xojo project to the version saved on disk. \
             Use after modifying project files directly."@
    }
}

impl Tool for RevertProject {
    fn name(&self) -> (r: &'static str)
        ensures
            r@ == "revert_project"@,
    {
        "revert_project"
    }

    fn description(&self) -> (r: &'static str)
        ensures
            r@ == Self::description_spec(),
    {
        "Reverts the current Xojo project to the version saved on disk. \
         Use after modifying project files directly."
    }

    fn parameters(&self) -> (r: Vec<ToolParam>)
        ensures
            r@.map_values(|p: ToolParam| param_view(p)) == Self::params_spec(),
            no_defaults(r@),
    {
        let mut p: Vec<ToolParam> = Vec::new();
        assert(p@.map_values(|p: ToolParam| param_view(p)) =~= Self::params_spec());
        p
    }

    fn mutates(&self) -> (r: bool)
        ensures
            r == true,
    {
        true
    }
}

/// The `save_project` tool.
pub struct SaveProject;

impl SaveProject {
    /// The parameters of this tool.
    pub open spec fn params_spec() -> Seq<(Seq<char>, ParamType, Seq<char>, bool)> {
        seq![]
    }

    /// The description of this tool.
    pub open spec fn description_spec() -> Seq<char> {
        "Saves the current Xojo project to disk via IDE scripting \
             (DoCommand \"SaveFile\")."@
    }
}

impl Tool for SaveProject {
    fn name(&self) -> (r: &'static str)
        ensures
            r@ == "save_project"@,
    {
        "save_project"
    }

    fn description(&self) -> (r: &'static str)
        ensures
            r@ == Self::description_spec(),
    {
        "Saves the current Xojo project to disk via IDE scripting \
         (DoCommand \"SaveFile\")."
    }

    fn parameters(&self) -> (r: Vec<ToolParam>)
        ensures
            r@.map_values(|p: ToolParam| param_view(p)) == Self::params_spec(),
            no_defaults(r@),
    {
        let mut p: Vec<ToolParam> = Vec::new();
        assert(p@.map_values(|p: ToolParam| param_view(p)) =~= Self::params_spec());
        p
    }

    fn mutates(&self) -> (r: bool)
        ensures
            r == true,
    {
        true
    }
}

/// The `get_item_description` tool.
pub struct GetItemDescription;

impl GetItemDescription {
    /// The parameters of this tool.
    pub open spec fn params_spec() -> Seq<(Seq<char>, ParamType, Seq<char>, bool)> {
        seq![
            ("location"@, ParamType::String, "Dot-separated path to navigate to first"@, false),
            ("value"@, ParamType::String, "If provided, sets description; if omitted, reads it"@, false),
        ]
    }

    /// The description of this tool.
    pub open spec fn description_spec() -> Seq<char> {
        "Gets or sets the description of the currently selected project item \
             (method, property, event, etc.)."@
    }
}

impl Tool for GetItemDescription {
    fn name(&self) -> (r: &'static str)
        ensures
            r@ == "get_item_description"@,
    {
        "get_item_description"
    }

    fn description(&self) -> (r: &'static str)
        ensures
            r@ == Self::description_spec(),
    {
        "Gets or sets the description of the currently selected project item \
         (method, property, event, etc.)."
    }

    fn parameters(&self) -> (r: Vec<ToolParam>)
        ensures
            r@.map_values(|p: ToolParam| param_view(p)) == Self::params_spec(),
            no_defaults(r@),
    {
        let mut p: Vec<ToolParam> = Vec::new();
        p.push(ToolParam {
            name: "location",
            param_type: ParamType::String,
            description: "Dot-separated path to navigate to first",
            required: false,
            default: None,
        });
        p.push(ToolParam {
            name: "value",
            param_type: ParamType::String,
            description: "If provided, sets description; if omitted, reads it",
            required: false,
            default: None,
        });
        assert(p@.map_values(|p: ToolParam| param_view(p)) =~= Self::params_spec());
        p
    }

    fn mutates(&self) -> (r: bool)
        ensures
            r == false,
    {
        false
    }
}

/// The `constant_value` tool.
pub struct ConstantValue;

impl ConstantValue {
    /// The parameters of this tool.
    pub open spec fn params_spec() -> Seq<(Seq<char>, ParamType, Seq<char>, bool)> {
        seq![
            ("name"@, ParamType::String, "Simple or fully qualified constant name (e.g. 'kVersion' or 'App.kVersion')"@, true),
            ("value"@, ParamType::String, "If provided, sets the constant; if omitted, returns current value"@, false),
        ]
    }

    /// The description of this tool.
    pub open spec fn description_spec() -> Seq<char> {
        "Gets or sets the value of a project constant in the Xojo IDE. \
             The constant must already exist in the project."@
    }
}

impl Tool for ConstantValue {
    fn name(&self) -> (r: &'static str)
        ensures
            r@ == "constant_value"@,
    {
        "constant_value"
    }

    fn description(&self) -> (r: &'static str)
        ensures
            r@ == Self::description_spec(),
    {
        "Gets or sets the value of a project constant in the Xojo IDE. \
         The constant must already exist in the project."
    }

    fn parameters(&self) -> (r: Vec<ToolParam>)
        ensures
            r@.map_values(|p: ToolParam| param_view(p)) == Self::params_spec(),
            no_defaults(r@),
    {
        let mut p: Vec<ToolParam> = Vec::new();
        p.push(ToolParam {
            name: "name",
            param_type: ParamType::String,
            description: "Simple or fully qualified constant name (e.g. 'kVersion' or 'App.kVersion')",
            required: true,
            default: None,
        });
        p.push(ToolParam {
            name: "value",
            param_type: ParamType::String,
            description: "If provided, sets the constant; if omitted, returns current value",
            required: false,
            default: None,
        });
        assert(p@.map_values(|p: ToolParam| param_view(p)) =~= Self::params_spec());
        p
    }

    fn mutates(&self) -> (r: bool)
        ensures
            r == false,
    {
        false
    }
}

/// The `analyze_project` tool.
pub struct AnalyzeProject;

impl AnalyzeProject {
    /// The parameters of this tool.
    pub open spec fn params_spec() -> Seq<(Seq<char>, ParamType, Seq<char>, bool)> {
        seq![
            ("scope"@, ParamType::String, "Scope to analyze: \"project\" (default) or \"item\" (currently selected item only)."@, false),
        ]
    }

    /// The description of this tool.
    pub open spec fn description_spec() -> Seq<char> {
        "Analyzes the current Xojo project for compile errors and warnings without \
             building. Reports unused variables, type mismatches, deprecated API usage, \
             and other issues. Pass scope=\"item\" to analyze only the currently selected \
             item (faster); default is \"project\" to analyze everything."@
    }
}

impl Tool for AnalyzeProject {
    fn name(&self) -> (r: &'static str)
        ensures
            r@ == "analyze_project"@,
    {
        "analyze_project"
    }

    fn description(&self) -> (r: &'static str)
        ensures
            r@ == Self::description_spec(),
    {
        "Analyzes the current Xojo project for compile errors and warnings without \
         building. Reports unused variables, type mismatches, deprecated API usage, \
         and other issues. Pass scope=\"item\" to analyze only the currently selected \
         item (faster); default is \"project\" to analyze everything."
    }

    fn parameters(&self) -> (r: Vec<ToolParam>)
        ensures
            r@.map_values(|p: ToolParam| param_view(p)) == Self::params_spec(),
            no_defaults(r@),
    {
        let mut p: Vec<ToolParam> = Vec::new();
        p.push(ToolParam {
            name: "scope",
            param_type: ParamType::String,
            description: "Scope to analyze: \"project\" (default) or \"item\" (currently selected item only).",
            required: false,
            default: None,
        });
        assert(p@.map_values(|p: ToolParam| param_view(p)) =~= Self::params_spec());
        p
    }

    fn mutates(&self) -> (r: bool)
        ensures
            r == false,
    {
        false
    }
}

/// The `debug_control` tool.
pub struct DebugControl;

impl DebugControl {
    /// The parameters of this tool.
    pub open spec fn params_spec() -> Seq<(Seq<char>, ParamType, Seq<char>, bool)> {
        seq![
            ("action"@, ParamType::String, "Debug action to perform: \"step_over\", \"step_into\", \"step_out\", \"resume\", or \"pause\"."@, true),
        ]
    }

    /// The description of this tool.
    pub open spec fn description_spec() -> Seq<char> {
        "Controls the Xojo debug session. Actions: \"step_over\" (execute current \
             line), \"step_into\" (step into method call), \"step_out\" (step out of \
             current method), \"resume\" (continue running), \"pause\" (pause execution). \
             Requires an active debug session started with run_project."@
    }
}

impl Tool for DebugControl {
    fn name(&self) -> (r: &'static str)
        ensures
            r@ == "debug_control"@,
    {
        "debug_control"
    }

    fn description(&self) -> (r: &'static str)
        ensures
            r@ == Self::description_spec(),
    {
        "Controls the Xojo debug session. Actions: \"step_over\" (execute current \
         line), \"step_into\" (step into method call), \"step_out\" (step out of \
         current method), \"resume\" (continue running), \"pause\" (pause execution). \
         Requires an active debug session started with run_project."
    }

    fn parameters(&self) -> (r: Vec<ToolParam>)
        ensures
            r@.map_values(|p: ToolParam| param_view(p)) == Self::params_spec(),
            no_defaults(r@),
    {
        let mut p: Vec<ToolParam> = Vec::new();
        p.push(ToolParam {
            name: "action",
            param_type: ParamType::String,
            description: "Debug action to perform: \"step_over\", \"step_into\", \"step_out\", \"resume\", or \"pause\".",
            required: true,
            default: None,
        });
        assert(p@.map_values(|p: ToolParam| param_view(p)) =~= Self::params_spec());
        p
    }

    fn mutates(&self) -> (r: bool)
        ensures
            r == false,
    {
        false
    }
}

/// The `edit_code` tool.
pub struct EditCode;

impl EditCode {
    /// The parameters of this tool.
    pub open spec fn params_spec() -> Seq<(Seq<char>, ParamType, Seq<char>, bool)> {
        seq![
            ("location"@, ParamType::String, "Dot-separated path to navigate to first"@, false),
            ("old_string"@, ParamType::String, "Exact text to replace, including whitespace and indentation"@, true),
            ("new_string"@, ParamType::String, "Text to put in its place"@, true),
            ("replace_all"@, ParamType::Boolean, "Replace every occurrence instead of requiring exactly one"@, false),
        ]
    }

    /// The description of this tool.
    pub open spec fn description_spec() -> Seq<char> {
        "Replaces an exact substring of the code at the current or specified location in the Xojo IDE. old_string must match the current code exactly, whitespace included, and occur exactly once unless replace_all is true."@
    }
}

impl Tool for EditCode {
    fn name(&self) -> (r: &'static str)
        ensures
            r@ == "edit_code"@,
    {
        "edit_code"
    }

    fn description(&self) -> (r: &'static str)
        ensures
            r@ == Self::description_spec(),
    {
        "Replaces an exact substring of the code at the current or specified location in the Xojo IDE. old_string must match the current code exactly, whitespace included, and occur exactly once unless replace_all is true."
    }

    fn parameters(&self) -> (r: Vec<ToolParam>)
        ensures
            r@.map_values(|p: ToolParam| param_view(p)) == Self::params_spec(),
            no_defaults(r@),
    {
        let mut p: Vec<ToolParam> = Vec::new();
        p.push(ToolParam {
            name: "location",
            param_type: ParamType::String,
            description: "Dot-separated path to navigate to first",
            required: false,
            default: None,
        });
        p.push(ToolParam {
            name: "old_string",
            param_type: ParamType::String,
            description: "Exact text to replace, including whitespace and indentation",
            required: true,
            default: None,
        });
        p.push(ToolParam {
            name: "new_string",
            param_type: ParamType::String,
            description: "Text to put in its place",
            required: true,
            default: None,
        });
        p.push(ToolParam {
            name: "replace_all",
            param_type: ParamType::Boolean,
            description: "Replace every occurrence instead of requiring exactly one",
            required: false,
            default: None,
        });
        assert(p@.map_values(|p: ToolParam| param_view(p)) =~= Self::params_spec());
        p
    }

    fn mutates(&self) -> (r: bool)
        ensures
            r == true,
    {
        true
    }
}

/// The `search_docs` tool.
pub struct SearchDocs;

impl SearchDocs {
    /// The parameters of this tool.
    pub open spec fn params_spec() -> Seq<(Seq<char>, ParamType, Seq<char>, bool)> {
        seq![
            ("query"@, ParamType::String, "Keyword or phrase to search for"@, true),
            ("max_results"@, ParamType::Integer, "Maximum number of matching lines to return (default 20, max 100)"@, false),
        ]
    }

    /// The description of this tool.
    pub open spec fn description_spec() -> Seq<char> {
        "Searches the local Xojo documentation (llms-full.txt) for a keyword, ignoring case, and returns the matching lines. Requires the documentation to be downloaded."@
    }
}

impl Tool for SearchDocs {
    fn name(&self) -> (r: &'static str)
        ensures
            r@ == "search_docs"@,
    {
        "search_docs"
    }

    fn description(&self) -> (r: &'static str)
        ensures
            r@ == Self::description_spec(),
    {
        "Searches the local Xojo documentation (llms-full.txt) for a keyword, ignoring case, and returns the matching lines. Requires the documentation to be downloaded."
    }

    fn parameters(&self) -> (r: Vec<ToolParam>)
        ensures
            r@.map_values(|p: ToolParam| param_view(p)) == Self::params_spec(),
            no_defaults(r@),
    {
        let mut p: Vec<ToolParam> = Vec::new();
        p.push(ToolParam {
            name: "query",
            param_type: ParamType::String,
            description: "Keyword or phrase to search for",
            required: true,
            default: None,
        });
        p.push(ToolParam {
            name: "max_results",
            param_type: ParamType::Integer,
            description: "Maximum number of matching lines to return (default 20, max 100)",
            required: false,
            default: None,
        });
        assert(p@.map_values(|p: ToolParam| param_view(p)) =~= Self::params_spec());
        p
    }

    fn mutates(&self) -> (r: bool)
        ensures
            r == false,
    {
        false
    }
}

/// The `lookup_class` tool.
pub struct LookupClass;

impl LookupClass {
    /// The parameters of this tool.
    pub open spec fn params_spec() -> Seq<(Seq<char>, ParamType, Seq<char>, bool)> {
        seq![
            ("class_name"@, ParamType::String, "Class name, e.g. 'DesktopButton'"@, true),
        ]
    }

    /// The description of this tool.
    pub open spec fn description_spec() -> Seq<char> {
        "Returns the documentation of one Xojo class from its _sources/<ClassName>.rst.txt file in the local documentation."@
    }
}

impl Tool for LookupClass {
    fn name(&self) -> (r: &'static str)
        ensures
            r@ == "lookup_class"@,
    {
        "lookup_class"
    }

    fn description(&self) -> (r: &'static str)
        ensures
            r@ == Self::description_spec(),
    {
        "Returns the documentation of one Xojo class from its _sources/<ClassName>.rst.txt file in the local documentation."
    }

    fn parameters(&self) -> (r: Vec<ToolParam>)
        ensures
            r@.map_values(|p: ToolParam| param_view(p)) == Self::params_spec(),
            no_defaults(r@),
    {
        let mut p: Vec<ToolParam> = Vec::new();
        p.push(ToolParam {
            name: "class_name",
            param_type: ParamType::String,
            description: "Class name, e.g. 'DesktopButton'",
            required: true,
            default: None,
        });
        assert(p@.map_values(|p: ToolParam| param_view(p)) =~= Self::params_spec());
        p
    }

    fn mutates(&self) -> (r: bool)
        ensures
            r == false,
    {
        false
    }
}

/// The `list_doc_topics` tool.
pub struct ListDocTopics;

impl ListDocTopics {
    /// The parameters of this tool.
    pub open spec fn params_spec() -> Seq<(Seq<char>, ParamType, Seq<char>, bool)> {
        seq![
            ("filter"@, ParamType::String, "Only list topics containing this text (ignoring case)"@, false),
        ]
    }

    /// The description of this tool.
    pub open spec fn description_spec() -> Seq<char> {
        "Lists the topics of the local Xojo documentation index (llms.txt), optionally only those containing a filter word."@
    }
}

impl Tool for ListDocTopics {
    fn name(&self) -> (r: &'static str)
        ensures
            r@ == "list_doc_topics"@,
    {
        "list_doc_topics"
    }

    fn description(&self) -> (r: &'static str)
        ensures
            r@ == Self::description_spec(),
    {
        "Lists the topics of the local Xojo documentation index (llms.txt), optionally only those containing a filter word."
    }

    fn parameters(&self) -> (r: Vec<ToolParam>)
        ensures
            r@.map_values(|p: ToolParam| param_view(p)) == Self::params_spec(),
            no_defaults(r@),
    {
        let mut p: Vec<ToolParam> = Vec::new();
        p.push(ToolParam {
            name: "filter",
            param_type: ParamType::String,
            description: "Only list topics containing this text (ignoring case)",
            required: false,
            default: None,
        });
        assert(p@.map_values(|p: ToolParam| param_view(p)) =~= Self::params_spec());
        p
    }

    fn mutates(&self) -> (r: bool)
        ensures
            r == false,
    {
        false
    }
}

/// The `estimate_request_cost` tool.
pub struct EstimateRequestCost;

impl EstimateRequestCost {
    /// The parameters of this tool.
    pub open spec fn params_spec() -> Seq<(Seq<char>, ParamType, Seq<char>, bool)> {
        seq![
            ("approach"@, ParamType::String, "The planned approach: the tools you intend to call and what you will read"@, true),
        ]
    }

    /// The description of this tool.
    pub open spec fn description_spec() -> Seq<char> {
        "Estimates whether a planned approach is likely to be expensive and suggests cheaper alternatives. Call it before broad or documentation-heavy tasks."@
    }
}

impl Tool for EstimateRequestCost {
    fn name(&self) -> (r: &'static str)
        ensures
            r@ == "estimate_request_cost"@,
    {
        "estimate_request_cost"
    }

    fn description(&self) -> (r: &'static str)
        ensures
            r@ == Self::description_spec(),
    {
        "Estimates whether a planned approach is likely to be expensive and suggests cheaper alternatives. Call it before broad or documentation-heavy tasks."
    }

    fn parameters(&self) -> (r: Vec<ToolParam>)
        ensures
            r@.map_values(|p: ToolParam| param_view(p)) == Self::params_spec(),
            no_defaults(r@),
    {
        let mut p: Vec<ToolParam> = Vec::new();
        p.push(ToolParam {
            name: "approach",
            param_type: ParamType::String,
            description: "The planned approach: the tools you intend to call and what you will read",
            required: true,
            default: None,
        });
        assert(p@.map_values(|p: ToolParam| param_view(p)) =~= Self::params_spec());
        p
    }

    fn mutates(&self) -> (r: bool)
        ensures
            r == false,
    {
        false
    }
}

/// The tools in the order the server offers them: name, description,
/// parameters, and whether the tool changes the project.
pub open spec fn catalog() -> Seq<(Seq<char>, Seq<char>, Seq<(Seq<char>, ParamType, Seq<char>, bool)>, bool)> {
    seq![
        ("get_debug_log"@, GetDebugLog::description_spec(), GetDebugLog::params_spec(), false),
        ("get_system_log"@, GetSystemLog::description_spec(), GetSystemLog::params_spec(), false),
        ("list_project_items"@, ListProjectItems::description_spec(), ListProjectItems::params_spec(), false),
        ("get_current_location"@, GetCurrentLocation::description_spec(), GetCurrentLocation::params_spec(), false),
        ("select_project_item"@, SelectProjectItem::description_spec(), SelectProjectItem::params_spec(), false),
        ("get_code"@, GetCode::description_spec(), GetCode::params_spec(), false),
        ("set_code"@, SetCode::description_spec(), SetCode::params_spec(), true),
        ("edit_code"@, EditCode::description_spec(), EditCode::params_spec(), true),
        ("get_selected_text"@, GetSelectedText::description_spec(), GetSelectedText::params_spec(), false),
        ("set_selected_text"@, SetSelectedText::description_spec(), SetSelectedText::params_spec(), true),
        ("build_project"@, BuildProject::description_spec(), BuildProject::params_spec(), false),
        ("run_project"@, RunProject::description_spec(), RunProject::params_spec(), false),
        ("stop_project"@, StopProject::description_spec(), StopProject::params_spec(), false),
        ("create_project_item"@, CreateProjectItem::description_spec(), CreateProjectItem::params_spec(), true),
        ("run_ide_script"@, RunIdeScript::description_spec(), RunIdeScript::params_spec(), false),
        ("get_project_info"@, GetProjectInfo::description_spec(), GetProjectInfo::params_spec(), false),
        ("revert_project"@, RevertProject::description_spec(), RevertProject::params_spec(), true),
        ("save_project"@, SaveProject::description_spec(), SaveProject::params_spec(), true),
        ("get_item_description"@, GetItemDescription::description_spec(), GetItemDescription::params_spec(), false),
        ("constant_value"@, ConstantValue::description_spec(), ConstantValue::params_spec(), false),
        ("analyze_project"@, AnalyzeProject::description_spec(), AnalyzeProject::params_spec(), false),
        ("debug_control"@, DebugControl::description_spec(), DebugControl::params_spec(), false),
        ("search_docs"@, SearchDocs::description_spec(), SearchDocs::params_spec(), false),
        ("lookup_class"@, LookupClass::description_spec(), LookupClass::params_spec(), false),
        ("list_doc_topics"@, ListDocTopics::description_spec(), ListDocTopics::params_spec(), false),
        ("estimate_request_cost"@, EstimateRequestCost::description_spec(), EstimateRequestCost::params_spec(), false),
    ]
}

/// The names of the tools that change the project.
pub open spec fn mutating_tool_names() -> Seq<Seq<char>> {
    seq!["set_code"@, "edit_code"@, "set_selected_text"@, "create_project_item"@, "revert_project"@, "save_project"@]
}

fn describe_tool(name: &'static str, description: &'static str, params: Vec<ToolParam>, mutates: bool) -> (r: ToolInfo)
    ensures
        r.name == name,
        r.description == description,
        r.params == params,
        r.mutates == mutates,
{
    ToolInfo { name, description, params, mutates }
}

/// The descriptions of all tools the server offers, in order.
pub fn all_tools() -> (r: Vec<ToolInfo>)
    ensures
        r@.map_values(|t: ToolInfo| info_view(t)) == catalog(),
        forall|i: int| 0 <= i < r.len() ==> no_defaults(#[trigger] r@[i].params@),
{
    let mut r: Vec<ToolInfo> = Vec::new();
    r.push(describe_tool(GetDebugLog.name(), GetDebugLog.description(), GetDebugLog.parameters(), GetDebugLog.mutates()));
    r.push(describe_tool(GetSystemLog.name(), GetSystemLog.description(), GetSystemLog.parameters(), GetSystemLog.mutates()));
    r.push(describe_tool(ListProjectItems.name(), ListProjectItems.description(), ListProjectItems.parameters(), ListProjectItems.mutates()));
    r.push(describe_tool(GetCurrentLocation.name(), GetCurrentLocation.description(), GetCurrentLocation.parameters(), GetCurrentLocation.mutates()));
    r.push(describe_tool(SelectProjectItem.name(), SelectProjectItem.description(), SelectProjectItem.parameters(), SelectProjectItem.mutates()));
    r.push(describe_tool(GetCode.name(), GetCode.description(), GetCode.parameters(), GetCode.mutates()));
    r.push(describe_tool(SetCode.name(), SetCode.description(), SetCode.parameters(), SetCode.mutates()));
    r.push(describe_tool(EditCode.name(), EditCode.description(), EditCode.parameters(), EditCode.mutates()));
    r.push(describe_tool(GetSelectedText.name(), GetSelectedText.description(), GetSelectedText.parameters(), GetSelectedText.mutates()));
    r.push(describe_tool(SetSelectedText.name(), SetSelectedText.description(), SetSelectedText.parameters(), SetSelectedText.mutates()));
    r.push(describe_tool(BuildProject.name(), BuildProject.description(), BuildProject.parameters(), BuildProject.mutates()));
    r.push(describe_tool(RunProject.name(), RunProject.description(), RunProject.parameters(), RunProject.mutates()));
    r.push(describe_tool(StopProject.name(), StopProject.description(), StopProject.parameters(), StopProject.mutates()));
    r.push(describe_tool(CreateProjectItem.name(), CreateProjectItem.description(), CreateProjectItem.parameters(), CreateProjectItem.mutates()));
    r.push(describe_tool(RunIdeScript.name(), RunIdeScript.description(), RunIdeScript.parameters(), RunIdeScript.mutates()));
    r.push(describe_tool(GetProjectInfo.name(), GetProjectInfo.description(), GetProjectInfo.parameters(), GetProjectInfo.mutates()));
    r.push(describe_tool(RevertProject.name(), RevertProject.description(), RevertProject.parameters(), RevertProject.mutates()));
    r.push(describe_tool(SaveProject.name(), SaveProject.description(), SaveProject.parameters(), SaveProject.mutates()));
    r.push(describe_tool(GetItemDescription.name(), GetItemDescription.description(), GetItemDescription.parameters(), GetItemDescription.mutates()));
    r.push(describe_tool(ConstantValue.name(), ConstantValue.description(), ConstantValue.parameters(), ConstantValue.mutates()));
    r.push(describe_tool(AnalyzeProject.name(), AnalyzeProject.description(), AnalyzeProject.parameters(), AnalyzeProject.mutates()));
    r.push(describe_tool(DebugControl.name(), DebugControl.description(), DebugControl.parameters(), DebugControl.mutates()));
    r.push(describe_tool(SearchDocs.name(), SearchDocs.description(), SearchDocs.parameters(), SearchDocs.mutates()));
    r.push(describe_tool(LookupClass.name(), LookupClass.description(), LookupClass.parameters(), LookupClass.mutates()));
    r.push(describe_tool(ListDocTopics.name(), ListDocTopics.description(), ListDocTopics.parameters(), ListDocTopics.mutates()));
    r.push(describe_tool(EstimateRequestCost.name(), EstimateRequestCost.description(), EstimateRequestCost.parameters(), EstimateRequestCost.mutates()));
    assert(r@.map_values(|t: ToolInfo| info_view(t)) =~= catalog());
    r
}

/// The tools that change the project are exactly `set_code`, `edit_code`,
/// `set_selected_text`, `create_project_item`, `revert_project` and
/// `save_project`.
pub proof fn law_mutating_tools()
    ensures
        catalog().filter(|t: (Seq<char>, Seq<char>, Seq<(Seq<char>, ParamType, Seq<char>, bool)>, bool)| t.3).map_values(
            |t: (Seq<char>, Seq<char>, Seq<(Seq<char>, ParamType, Seq<char>, bool)>, bool)| t.0,
        ) == mutating_tool_names(),
{
    reveal_with_fuel(Seq::filter, 27);
    let c = catalog();
    assert(c.len() == 26);
}

} // verus!
