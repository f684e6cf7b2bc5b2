//! What holds of every schema, its diagram and its text.
//!
//! The laws about constraints, relations and order stand in the modules
//! below; the ones here concern the rendering as a whole.

pub mod constraints;
pub mod order;
pub mod relations;

use crate::laws::constraints::lemma_constraints_complete;
use crate::render::{field_column, field_constraints, schema_diagram};
use crate::schema::{FieldTypeView, FieldView, Schema, SchemaView};
use crate::text::{column_line, constraint_annotation, diagram_text};
use vstd::prelude::*;

verus! {

/// The d2 text of a schema: that of its diagram.
pub open spec fn schema_text(schema: SchemaView) -> Seq<char> {
    diagram_text(schema_diagram(schema))
}

/// The text depends on the schema's value alone: two schemas that hold the
/// same models, fields and attributes in the same order have the same
/// diagram and the same text.
pub proof fn lemma_text_is_determined(a: Schema, b: Schema)
    requires
        a@ == b@,
    ensures
        schema_diagram(a@) == schema_diagram(b@),
        schema_text(a@) == schema_text(b@),
{
}

/// A field of an unsupported type shows the token that the schema gave for
/// the type, as it stands, where a supported field shows its type's name.
pub proof fn lemma_unsupported_passthrough(field: FieldView, token: Seq<char>)
    requires
        field.field_type == FieldTypeView::Unsupported(token),
    ensures
        field_column(field).datatype == token,
        column_line(field_column(field)) == "\t"@ + field.name + ": "@ + token
            + constraint_annotation(field_constraints(field.attributes)) + "\n"@,
{
}

/// The diagram of a well-formed schema is well formed. Whatever the schema,
/// no column of its diagram lists a constraint twice.
pub proof fn lemma_diagram_well_formed(schema: SchemaView)
    ensures
        forall|i: int, j: int|
            0 <= i < schema_diagram(schema).sql_tables.len() && 0 <= j < schema_diagram(
                schema,
            ).sql_tables[i].columns.len() ==> (#[trigger] schema_diagram(
                schema,
            ).sql_tables[i].columns[j]).well_formed(),
        schema.well_formed() ==> schema_diagram(schema).well_formed(),
{
    let d = schema_diagram(schema);
    assert forall|i: int, j: int|
        0 <= i < d.sql_tables.len() && 0 <= j < d.sql_tables[i].columns.len() implies (
    #[trigger] d.sql_tables[i].columns[j]).well_formed() by {
        lemma_constraints_complete(schema.models[i].fields[j].attributes);
    }
    if schema.well_formed() {
        assert forall|i: int| 0 <= i < d.sql_tables.len() implies (
        #[trigger] d.sql_tables[i]).well_formed() by {
            assert forall|j: int| 0 <= j < d.sql_tables[i].columns.len() implies (
            #[trigger] d.sql_tables[i].columns[j]).well_formed() by {}
        }
        assert forall|i: int, j: int| 0 <= i < j < d.sql_tables.len() implies (
        #[trigger] d.sql_tables[i]).name != (#[trigger] d.sql_tables[j]).name by {
        }
    }
}

} // verus!
