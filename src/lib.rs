//! A column table whose hovered header or cell shows its full text in an
//! expand bar above the table.
//!
//! The library holds the table's decisions: the layout of the expand bar,
//! header strip and content grid, the rebuild of the materialized cell grid
//! when the number of rows changes, and the hit test that resolves which
//! header or cell the pointer is over. Drawing and measuring text are left to
//! the host toolkit, which hands measured heights and pointer positions in.

pub mod column;
pub mod geometry;
pub mod grid;
pub mod hit;
pub mod layout;
pub mod row;
pub mod table;
pub mod tree;
