//! An interactive substring filter over a fixed table of command aliases.
//!
//! The library holds the pure core of the tool: the alias table, the
//! filter/sort engine, the query-buffer editor, and the renderer that
//! lays out one full frame of terminal output. Reading keys and writing
//! to the terminal stay outside.

pub mod editor;
pub mod engine;
pub mod render;
pub mod table;
pub mod text;

use vstd::prelude::*;

verus! {

/// Width, in columns, that the alias field is padded to in a result row.
pub const ALIAS_FIELD_WIDTH: usize = 10;

} // verus!
