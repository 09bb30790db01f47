//! Resolution of the names of the C grammar for tree-sitter (node kinds, keywords and fields)
//! to the numbers by which the grammar identifies them.
//!
//! - [`symbol`]: the namespaces, the identifier of a field, and the one error.
//! - [`text`]: what is asked of a name as text.
//! - [`grammar`]: the questions put to tree-sitter, which are believed, not proved.
//! - [`resolver`]: [`kind`], [`kw`] and [`field`], and what decides their outcome.
//! - [`laws`]: what holds of every resolution.

pub mod grammar;
pub mod laws;
pub mod resolver;
pub mod symbol;
pub mod text;

pub use resolver::{
    accept_field_id, accept_node_kind_id, field, is_confirmed, kind, kw, resolve,
    resolve_node_kind,
};
pub use symbol::{Category, FieldId, UnknownSymbol};
