//! Order: tables follow models, columns follow fields, in the diagram and
//! in the text.

use crate::diagram::{ColumnView, DiagramView, TableView};
use crate::laws::schema_text;
use crate::render::{
    field_column, field_columns, model_table, model_tables, models_relations, schema_diagram,
};
use crate::schema::{ModelView, SchemaView};
use crate::text::{
    column_line, column_lines, diagram_text, relation_lines, table_block, table_blocks,
    table_head,
};
use vstd::prelude::*;

verus! {

/// The concatenation of all `f(s[k])` is that of the elements before `i`,
/// then `f(s[i])`, then that of the elements after `i`.
pub proof fn lemma_flat_map_split<A, B>(s: Seq<A>, f: spec_fn(A) -> Seq<B>, i: int)
    requires
        0 <= i < s.len(),
    ensures
        s.flat_map(f) == s.take(i).flat_map(f) + f(s[i]) + s.skip(i + 1).flat_map(f),
{
    let front = s.take(i).map_values(f);
    let back = s.skip(i + 1).map_values(f);
    assert(s.map_values(f) =~= front.push(f(s[i])) + back);
    vstd::seq_lib::lemma_flatten_concat(front.push(f(s[i])), back);
    front.lemma_flatten_push(f(s[i]));
}

/// The diagram follows the schema's order: the `i`-th table is that of the
/// `i`-th model and bears its name, and its `j`-th column is that of the
/// model's `j`-th field and bears its name.
pub proof fn lemma_order_preserved(schema: SchemaView)
    ensures
        schema_diagram(schema).sql_tables.len() == schema.models.len(),
        forall|i: int|
            0 <= i < schema.models.len() ==> {
                &&& (#[trigger] schema_diagram(schema).sql_tables[i]) == model_table(
                    schema.models[i],
                )
                &&& schema_diagram(schema).sql_tables[i].name == schema.models[i].name
                &&& schema_diagram(schema).sql_tables[i].columns.len()
                    == schema.models[i].fields.len()
            },
        forall|i: int, j: int|
            0 <= i < schema.models.len() && 0 <= j < schema.models[i].fields.len() ==> {
                &&& (#[trigger] schema_diagram(schema).sql_tables[i].columns[j]) == field_column(
                    schema.models[i].fields[j],
                )
                &&& schema_diagram(schema).sql_tables[i].columns[j].name
                    == schema.models[i].fields[j].name
            },
{
}

/// The block of a table without columns is its name, the opening brace, the
/// shape line and the closing brace.
pub proof fn lemma_empty_table_block(t: TableView)
    requires
        t.columns.len() == 0,
    ensures
        table_block(t) == t.name + " {\n"@ + "\tshape: sql_table\n"@ + "}"@,
{
}

/// Inside a table block the column lines stand in column order: before the
/// line of column `j` stand the head and the lines of the columns before it,
/// after it the lines of the columns after it and the closing brace.
pub proof fn lemma_column_line_position(t: TableView, j: int)
    requires
        0 <= j < t.columns.len(),
    ensures
        table_block(t) == table_head(t.name) + column_lines(t.columns.take(j)) + column_line(
            t.columns[j],
        ) + column_lines(t.columns.skip(j + 1)) + "}"@,
{
    lemma_flat_map_split(t.columns, |c: ColumnView| column_line(c), j);
}

/// In the text the table blocks stand in table order: before the block of
/// table `i` stand exactly the blocks of the tables before it, after it
/// those of the tables after it and then the relation lines.
pub proof fn lemma_table_block_position(d: DiagramView, i: int)
    requires
        0 <= i < d.sql_tables.len(),
    ensures
        diagram_text(d) == table_blocks(d.sql_tables.take(i)) + table_block(d.sql_tables[i])
            + "\n\n"@ + table_blocks(d.sql_tables.skip(i + 1)) + relation_lines(d.relations),
{
    lemma_flat_map_split(d.sql_tables, |t: TableView| table_block(t) + "\n\n"@, i);
}

/// The text follows the schema's model order: before the block of the
/// `i`-th model stand exactly the blocks of the models before it, after it
/// those of the models after it, and then the relation lines.
pub proof fn lemma_model_block_position(schema: SchemaView, i: int)
    requires
        0 <= i < schema.models.len(),
    ensures
        schema_text(schema) == table_blocks(model_tables(schema.models.take(i))) + table_block(
            model_table(schema.models[i]),
        ) + "\n\n"@ + table_blocks(model_tables(schema.models.skip(i + 1))) + relation_lines(
            models_relations(schema.models),
        ),
{
    let d = schema_diagram(schema);
    lemma_table_block_position(d, i);
    assert(d.sql_tables.take(i) =~= model_tables(schema.models.take(i)));
    assert(d.sql_tables.skip(i + 1) =~= model_tables(schema.models.skip(i + 1)));
}

/// The block of a model follows its field order: before the line of the
/// `j`-th field stand the head and exactly the lines of the fields before
/// it, after it those of the fields after it and the closing brace.
pub proof fn lemma_field_line_position(model: ModelView, j: int)
    requires
        0 <= j < model.fields.len(),
    ensures
        table_block(model_table(model)) == table_head(model.name) + column_lines(
            field_columns(model.fields.take(j)),
        ) + column_line(field_column(model.fields[j])) + column_lines(
            field_columns(model.fields.skip(j + 1)),
        ) + "}"@,
{
    let t = model_table(model);
    lemma_column_line_position(t, j);
    assert(t.columns.take(j) =~= field_columns(model.fields.take(j)));
    assert(t.columns.skip(j + 1) =~= field_columns(model.fields.skip(j + 1)));
}

} // verus!
