#![verifier::loop_isolation(false)]
//! Core engine of a terminal outline editor for checkable task lists.
//!
//! A document is a flat ordered sequence of items (tasks, notes and
//! headings); nesting is expressed through a per-item indentation depth
//! and recomputed on demand rather than stored as a tree.  This crate
//! holds the verified document model, the block/structure operations,
//! the codepoint-safe rename buffer, search, navigation and the
//! snapshot-based undo stack.  Terminal drawing, key decoding and file
//! persistence live outside the library and talk to it through plain
//! values.

pub mod actions;
pub mod app;
pub mod config;
pub mod edit;
pub mod handlers;
pub mod models;
pub mod navigation;
pub mod parser;
pub mod search;
pub mod state;
pub mod text;
pub mod undo;
pub mod writer;
