//! Decisions of the herdr projects plugin: what an action or a popup does
//! with what it was handed, and when an agent pane may be adopted.

pub mod text;
pub mod error;
pub mod adopt;
pub mod actions;
pub mod workspace_flow;
pub mod thread_flow;
