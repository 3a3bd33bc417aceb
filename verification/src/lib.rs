//! A checked bridge between a tree-sitter syntax tree and a host that keeps
//! node handles around.
//!
//! The parsing engine is called for every question about a node; the bridge
//! hands out a handle only for a node whose layout it has checked, keeps each
//! handle tied to the tree it was reached from, and turns every answer of the
//! engine that would break one of its promises into a [`BridgeError`].
//!
//! A handle that is kept while the text is edited is moved by [`edit_node`]:
//! its start by the engine, and its end, which the handle keeps for itself,
//! by the same rule.
pub mod position;
pub mod error;
pub mod engine;
pub mod edit;
pub mod layout;
pub mod node;
pub mod navigate;
pub mod walk;
pub mod laws;

pub use edit::{edit_node, edit_tree, EditDescription};
pub use error::BridgeError;
pub use layout::{check_layout, require_child, require_named};
pub use node::{Found, NodeHandle};
pub use position::{Point, Range};
pub use walk::{mapc_children, WalkError};
