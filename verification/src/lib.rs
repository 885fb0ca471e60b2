//! Tab names for a terminal multiplexer, derived from the focused pane's
//! working directory and git branch.

pub mod branch;
pub mod context;
pub mod formatter;
pub mod session;
pub mod string_map;
pub mod text;
pub mod title;
