//! The table views: Topics, Nodes.

pub mod diagnostics;
pub mod nodes;
pub mod table;
pub mod topics;
