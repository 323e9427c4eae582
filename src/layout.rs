//! Layout descriptions: how panes split, what runs in them, and where
//! floating panes sit.

use vstd::prelude::*;
use std::collections::BTreeMap;

verus! {

#[derive(Debug, Clone, Copy, PartialEq, Eq, Structural)]
pub enum SplitDirection {
    Horizontal,
    Vertical,
}

impl SplitDirection {
    /// The other direction.
    pub fn flipped(self) -> (r: SplitDirection)
        ensures
            r != self,
    {
        match self {
            SplitDirection::Horizontal => SplitDirection::Vertical,
            SplitDirection::Vertical => SplitDirection::Horizontal,
        }
    }
}

/// The size of a pane: a share of the space in percent, or a fixed number of cells.
#[derive(Debug, Clone, Copy, PartialEq, Eq, Structural)]
pub enum SplitSize {
    Percent(usize),
    Fixed(usize),
}

/// Position and size of a pane, in cells.
#[derive(Debug, Clone, Copy, Default, PartialEq, Eq, Structural)]
pub struct PaneGeom {
    pub x: usize,
    pub y: usize,
    pub rows: usize,
    pub cols: usize,
}

#[derive(Debug, Clone, PartialEq, Eq)]
pub struct RunCommand {
    pub command: String,
    pub args: Vec<String>,
    pub cwd: Option<String>,
    pub hold_on_close: bool,
    pub hold_on_start: bool,
}

#[derive(Debug, Clone, PartialEq, Eq, Hash)]
pub struct RunPlugin {
    pub location: String,
    pub configuration: BTreeMap<String, String>,
}

impl RunPlugin {
    /// Where the plugin is loaded from.
    pub fn location_string(&self) -> (r: String)
        ensures
            r@ == self.location@,
    {
        self.location.clone()
    }
}

/// What a pane runs.
#[derive(Debug, Clone, PartialEq, Eq)]
pub enum Run {
    Command(RunCommand),
    Plugin(RunPlugin),
    EditFile(String, Option<usize>, Option<String>),
    Cwd(String),
}

impl Run {
    /// The default: a plain `sh` with no arguments, directory or holds.
    pub fn default_command() -> (r: Run)
        ensures
            r matches Run::Command(c) && c.command@ == "sh"@ && c.args@.len() == 0 && c.cwd is None
                && !c.hold_on_close && !c.hold_on_start,
    {
        Run::Command(
            RunCommand {
                command: String::from_str("sh"),
                args: Vec::new(),
                cwd: None,
                hold_on_close: false,
                hold_on_start: false,
            },
        )
    }
}

#[derive(Debug, Clone, PartialEq)]
pub enum RunPluginOrAlias {
    RunPlugin(RunPlugin),
    Alias(String),
}

impl RunPluginOrAlias {
    /// Plugins are not run, so no plugin is equivalent to a pane's run.
    pub fn is_equivalent_to_run(&self, other: &Option<Run>) -> (r: bool)
        ensures
            !r,
    {
        false
    }

    /// A plugin loaded from `url` with an empty configuration.
    pub fn from_url(url: &str, cwd: Option<String>, pane_title: Option<String>) -> (r: Result<
        RunPluginOrAlias,
        String,
    >)
        ensures
            r matches Ok(RunPluginOrAlias::RunPlugin(p)) && p.location@ == url@ && p.configuration@.len() == 0,
    {
        let configuration = BTreeMap::new();
        proof {
            assert(configuration@ == Map::<String, String>::empty());
        }
        Ok(RunPluginOrAlias::RunPlugin(RunPlugin { location: String::from_str(url), configuration }))
    }
}

#[derive(Debug, Clone, PartialEq)]
pub struct FloatingPaneLayout {
    pub name: Option<String>,
    pub height: Option<SplitSize>,
    pub width: Option<SplitSize>,
    pub x: Option<SplitSize>,
    pub y: Option<SplitSize>,
    pub run: Option<Run>,
    pub focus: Option<bool>,
    pub already_running: bool,
    pub pinned: Option<bool>,
    pub logical_position: Option<usize>,
    pub pane_initial_contents: Option<String>,
}

impl FloatingPaneLayout {
    /// A floating pane with nothing set.
    pub fn new() -> (r: FloatingPaneLayout)
        ensures
            r.name is None && r.height is None && r.width is None && r.x is None && r.y is None,
            r.run is None && r.focus is None && !r.already_running && r.pinned is None,
            r.logical_position is None && r.pane_initial_contents is None,
    {
        FloatingPaneLayout {
            name: None,
            height: None,
            width: None,
            x: None,
            y: None,
            run: None,
            focus: None,
            already_running: false,
            pinned: None,
            logical_position: None,
            pane_initial_contents: None,
        }
    }
}

#[derive(Debug)]
pub struct TiledPaneLayout {
    pub children_split_direction: SplitDirection,
    pub name: Option<String>,
    pub children: Vec<TiledPaneLayout>,
    pub split_size: Option<SplitSize>,
    pub run: Option<Run>,
    pub borderless: bool,
    pub focus: Option<bool>,
    pub external_children_index: Option<usize>,
    pub children_are_stacked: bool,
    pub is_expanded_in_stack: bool,
    pub exclude_from_sync: Option<bool>,
    pub run_instructions_to_ignore: Vec<Option<Run>>,
    pub hide_floating_panes: bool,
    pub pane_initial_contents: Option<String>,
}

impl TiledPaneLayout {
    /// A single horizontal pane with nothing set.
    pub fn new() -> (r: TiledPaneLayout)
        ensures
            r.children_split_direction == SplitDirection::Horizontal,
            r.children@.len() == 0,
            r.run is None,
            r.run_instructions_to_ignore@.len() == 0,
    {
        TiledPaneLayout {
            children_split_direction: SplitDirection::Horizontal,
            name: None,
            children: Vec::new(),
            split_size: None,
            run: None,
            borderless: false,
            focus: None,
            external_children_index: None,
            children_are_stacked: false,
            is_expanded_in_stack: false,
            exclude_from_sync: None,
            run_instructions_to_ignore: Vec::new(),
            hide_floating_panes: false,
            pane_initial_contents: None,
        }
    }

    /// Panes are not laid out by this layout: the placement is always empty.
    pub fn position_panes_in_space(
        &self,
        space: &PaneGeom,
        tiled_panes_count: Option<usize>,
        should_add_pane: bool,
        focus_layout_if_not_focused: bool,
    ) -> (r: Result<Vec<(TiledPaneLayout, PaneGeom)>, String>)
        ensures
            r matches Ok(v) && v@.len() == 0,
    {
        Ok(Vec::new())
    }

    /// The layout always counts as one pane, the shell's.
    pub fn pane_count(&self) -> (r: usize)
        ensures
            r == 1,
    {
        1
    }

    /// No run instructions are carried.
    pub fn extract_run_instructions(&self) -> (r: Vec<Option<Run>>)
        ensures
            r@.len() == 0,
    {
        Vec::new()
    }
}

#[derive(Debug, Clone, PartialEq, Eq, PartialOrd, Ord)]
pub enum LayoutConstraint {
    ExactPanes(usize),
    MaxPanes(usize),
    MinPanes(usize),
    NoConstraint,
}

#[derive(Debug)]
pub struct SwapTiledLayout(pub BTreeMap<LayoutConstraint, TiledPaneLayout>, pub Option<String>);

#[derive(Debug, Clone, PartialEq)]
pub struct SwapFloatingLayout(pub BTreeMap<LayoutConstraint, Vec<FloatingPaneLayout>>, pub Option<String>);

} // verus!
