//! A small, typed builder for `SELECT` statements over the music schema
//! (types, performers, persons, groups, albums, rolas, in_group).
pub mod column;
pub mod query;
pub mod text;

pub use column::{ParseError, TableColumn};
pub use query::{get_tables_from_columns, select, Conditional};
pub use text::same_text;
