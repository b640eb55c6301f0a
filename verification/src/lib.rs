//! An interactive terminal SQL browser, split into a verified core and a thin
//! unverified shell.  This crate is the core: the line-editing input buffer,
//! the result-set data model, the cell formatter and grid renderer, the
//! scroll state, and the key-event state machine that ties them together.

pub mod app;
pub mod cells;
pub mod data;
pub mod render;
pub mod scroll;
