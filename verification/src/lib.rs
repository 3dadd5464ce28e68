//! A verified core for a single-screen todo-list editor.
//!
//! The crate holds the item list, the cursor and screen state machine, the
//! text that is drawn for each state, and the bookkeeping rule for the
//! ignore file. Reading keys, drawing, and touching the file system are left
//! to the caller, which feeds events in and carries the answers out.

pub mod input;
pub mod item;
pub mod persist;
pub mod render;
pub mod screen;
pub mod store;
pub mod text;
