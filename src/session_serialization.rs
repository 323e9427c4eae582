//! Session layout manifests. Serialisation of sessions is turned off: the
//! functions here give fixed, empty answers.

use vstd::prelude::*;
use std::collections::BTreeMap;
use crate::layout::PaneGeom;

verus! {

/// Text produced in place of a serialised session.
pub const DISABLED_LAYOUT: &'static str = "// Session serialization disabled in Typey Pipe\n";

#[derive(Default, Debug, Clone)]
pub struct PaneLayoutManifest {
    pub geom: PaneGeom,
    pub run: Option<String>,
    pub cwd: Option<String>,
    pub is_focused: bool,
    pub pane_name: Option<String>,
    pub pane_initial_contents: Option<String>,
    pub is_borderless: bool,
    pub exclude_from_sync: bool,
}

#[derive(Default, Debug, Clone)]
pub struct TabLayoutManifest {
    pub tiled_panes: Vec<PaneLayoutManifest>,
    pub floating_panes: Vec<PaneLayoutManifest>,
    pub is_focused: bool,
    pub hide_floating_panes: bool,
}

#[derive(Default, Debug, Clone)]
pub struct GlobalLayoutManifest {
    pub global_cwd: Option<String>,
    pub default_shell: Option<String>,
    pub tabs: Vec<(String, TabLayoutManifest)>,
}

/// Always succeeds with the fixed placeholder text.
pub fn serialize_session_layout(
    global_cwd: Option<String>,
    default_shell: Option<String>,
    tabs: Vec<(String, TabLayoutManifest)>,
    swap_tiled_layouts: Vec<(String, String)>,
    swap_floating_layouts: Vec<(String, String)>,
    focused_tab_index: usize,
) -> (r: Result<String, String>)
    ensures
        r matches Ok(s) && s@ == DISABLED_LAYOUT@,
{
    Ok(String::from_str(DISABLED_LAYOUT))
}

/// Always `sh` with no arguments.
pub fn extract_command_and_args(run: &str) -> (r: (String, Vec<String>))
    ensures
        r.0@ == "sh"@,
        r.1@.len() == 0,
{
    (String::from_str("sh"), Vec::new())
}

/// Never finds a file to edit.
pub fn extract_edit_and_line_number(run: &str) -> (r: Option<(String, Option<usize>)>)
    ensures
        r is None,
{
    None
}

/// Never finds a plugin.
pub fn extract_plugin_and_config(run: &str) -> (r: Option<(String, BTreeMap<String, String>)>)
    ensures
        r is None,
{
    None
}

} // verus!
