//! Core engine of a terminal file manager: a single-owner state store with an
//! action/reducer protocol, and a tree of components (root, panels, tabs, a
//! modal overlay) that derive their local view from the global state and route
//! input events through the tree with short-circuiting.
//!
//! Terminal drawing itself is left to the embedding binary; the library
//! computes everything a renderer needs (layout areas, list rows, selection)
//! as plain data.

pub mod events;
pub mod actions;
pub mod file_system;
pub mod state;
pub mod store;
pub mod component_base;
pub mod component;
pub mod tab;
pub mod panel;
pub mod create_modal;
pub mod error_modal;
pub mod root;
pub mod layout;
