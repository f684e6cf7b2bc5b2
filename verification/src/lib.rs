//! Renders a data-modelling schema as a d2 diagram description.
//!
//! A [`Schema`] lists models, their fields and the attributes attached to
//! each field, all in declaration order. [`render`] builds its
//! [`D2Diagram`]: one SQL-table shape per model, with a column per field, and
//! one directed edge per relation attribute. [`D2Diagram::to_string`] writes
//! the diagram in d2 notation.
//!
//! ```text
//! User {
//! 	shape: sql_table
//! 	id: Int { constraint: [primary_key] }
//! 	email: String { constraint: [unique] }
//! }
//!
//! Post -> User
//! ```
//!
//! Each executable function states what it returns over the mathematical
//! value (the view) of its arguments, and the [`laws`] module proves what
//! follows for every schema: which constraints and edges appear, and in
//! which order things stand in the text.

pub mod classify;
pub mod diagram;
pub mod laws;
pub mod render;
pub mod schema;
pub mod text;

pub use classify::{classify, AttributeKind};
pub use diagram::{D2Diagram, D2Relation, D2SqlColumn, D2SqlTable, SqlConstraint};
pub use render::{render, render_field, render_model};
pub use schema::{Attribute, Field, FieldType, Model, Schema};
