//! User actions and key bindings.

use vstd::prelude::*;
use std::collections::BTreeMap;

verus! {

#[derive(Debug, Clone, PartialEq)]
pub enum Action {
    NoOp,
    CliPipe {
        pipe_id: String,
        name: Option<String>,
        payload: Option<String>,
        args: Option<BTreeMap<String, String>>,
        configuration: Option<BTreeMap<String, String>>,
        launch_new: Option<bool>,
        skip_cache: Option<bool>,
        floating: Option<bool>,
        in_place: Option<bool>,
        cwd: Option<String>,
    },
}

#[derive(Debug, Clone, Copy, PartialEq, Eq, Structural)]
pub enum SearchDirection {
    Up,
    Down,
}

#[derive(Debug, Clone, PartialEq, Eq, Structural)]
pub enum SearchOption {
    CaseSensitive,
    WholeWord,
    Wrap,
}

/// Key bindings; none are configured.
#[derive(Debug, Clone, Default, PartialEq, Eq, Structural)]
pub struct Keybinds {}

} // verus!
