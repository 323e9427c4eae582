//! Verified core of a terminal bridge that injects commands from a file
//! queue into an interactive shell without colliding with live typing.

pub mod actions;
pub mod activity;
pub mod audit;
pub mod batch;
pub mod client;
pub mod delivery;
pub mod drain;
pub mod keys;
pub mod layout;
pub mod logging_pipe;
pub mod mouse;
pub mod plugins;
pub mod session;
pub mod session_serialization;
pub mod status_bar;
pub mod text;
pub mod types;
