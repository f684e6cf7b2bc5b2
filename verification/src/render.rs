//! The diagram builder: from a schema to its tables and relation edges.

use crate::classify::{classify, kind_of, AttributeKind};
use crate::diagram::{
    insert_constraint, relations_view, ColumnView, D2Diagram, D2Relation, D2SqlColumn,
    D2SqlTable, DiagramView, RelationView, SqlConstraint, TableView,
};
use crate::laws::lemma_diagram_well_formed;
use crate::schema::{AttributeView, Field, FieldView, Model, ModelView, Schema, SchemaView};
use vstd::prelude::*;

verus! {

/// The constraints of a column after one more attribute has been read.
pub open spec fn with_attribute(cs: Seq<SqlConstraint>, a: AttributeView) -> Seq<SqlConstraint> {
    match kind_of(a.name) {
        AttributeKind::PrimaryKeyMarker => insert_constraint(cs, SqlConstraint::PrimaryKey),
        AttributeKind::UniqueMarker => insert_constraint(cs, SqlConstraint::Unique),
        _ => cs,
    }
}

/// The constraints that a field's attributes imply, read in order.
pub open spec fn field_constraints(attributes: Seq<AttributeView>) -> Seq<SqlConstraint> {
    attributes.fold_left(
        Seq::empty(),
        |cs: Seq<SqlConstraint>, a: AttributeView| with_attribute(cs, a),
    )
}

/// Whether an attribute marks its field as a relation.
pub open spec fn is_relation(a: AttributeView) -> bool {
    kind_of(a.name) == AttributeKind::RelationMarker
}

/// The unlabelled edge from the table `from` to the table `to`.
pub open spec fn edge(from: Seq<char>, to: Seq<char>) -> RelationView {
    RelationView { from, to, label: None }
}

/// One edge from `from` to `to` for each relation attribute in `attributes`.
pub open spec fn relation_edges(
    from: Seq<char>,
    to: Seq<char>,
    attributes: Seq<AttributeView>,
) -> Seq<RelationView> {
    attributes.filter(|a: AttributeView| is_relation(a)).map_values(
        |a: AttributeView| edge(from, to),
    )
}

/// The column that stands for a field.
pub open spec fn field_column(field: FieldView) -> ColumnView {
    ColumnView {
        name: field.name,
        datatype: field.field_type.datatype(),
        constraints: field_constraints(field.attributes),
    }
}

/// The edges that a field of the model `table` draws, all of them to the
/// field's datatype.
pub open spec fn field_relations(table: Seq<char>, field: FieldView) -> Seq<RelationView> {
    relation_edges(table, field.field_type.datatype(), field.attributes)
}

/// The columns of the fields, in field order.
pub open spec fn field_columns(fields: Seq<FieldView>) -> Seq<ColumnView> {
    fields.map_values(|f: FieldView| field_column(f))
}

/// The edges that the fields of the model `table` draw, in field order.
pub open spec fn fields_relations(table: Seq<char>, fields: Seq<FieldView>) -> Seq<RelationView> {
    fields.flat_map(|f: FieldView| field_relations(table, f))
}

/// The table that stands for a model.
pub open spec fn model_table(model: ModelView) -> TableView {
    TableView { name: model.name, columns: field_columns(model.fields) }
}

/// The edges that a model's fields draw, in field order.
pub open spec fn model_relations(model: ModelView) -> Seq<RelationView> {
    fields_relations(model.name, model.fields)
}

/// The tables of the models, in model order.
pub open spec fn model_tables(models: Seq<ModelView>) -> Seq<TableView> {
    models.map_values(|m: ModelView| model_table(m))
}

/// The edges that the models draw, model by model.
pub open spec fn models_relations(models: Seq<ModelView>) -> Seq<RelationView> {
    models.flat_map(|m: ModelView| model_relations(m))
}

/// The diagram of a schema: one table per model, in model order, and the
/// edges in the order in which their fields are met.
pub open spec fn schema_diagram(schema: SchemaView) -> DiagramView {
    DiagramView {
        sql_tables: model_tables(schema.models),
        relations: models_relations(schema.models),
    }
}

/// Reading one more attribute `a` after `attributes` applies `a`'s effect to
/// the constraints and draws one more edge exactly if `a` is a relation.
pub proof fn lemma_read_attribute(
    from: Seq<char>,
    to: Seq<char>,
    attributes: Seq<AttributeView>,
    a: AttributeView,
)
    ensures
        field_constraints(attributes.push(a)) == with_attribute(field_constraints(attributes), a),
        relation_edges(from, to, attributes.push(a)) == if is_relation(a) {
            relation_edges(from, to, attributes).push(edge(from, to))
        } else {
            relation_edges(from, to, attributes)
        },
{
    assert(attributes.push(a).drop_last() =~= attributes);
    attributes.lemma_filter_push(a, |x: AttributeView| is_relation(x));
}

/// Builds the column of a field and the edges it draws from `table_name`.
///
/// An `id` attribute attaches `PrimaryKey`, a `unique` attribute `Unique`,
/// each at most once; each `relation` attribute draws one unlabelled edge to
/// the field's datatype. Other attributes are skipped. An unsupported type
/// shows as the token the schema gave for it.
pub fn render_field(table_name: &str, field: &Field) -> (rendered: (D2SqlColumn, Vec<D2Relation>))
    ensures
        rendered.0@ == field_column(field@),
        rendered.0@.well_formed(),
        relations_view(rendered.1@) == field_relations(table_name@, field@),
{
    let datatype = field.field_type.datatype();
    let mut column = D2SqlColumn::with_name_and_datatype(field.name.clone(), datatype.clone());
    let mut relations: Vec<D2Relation> = Vec::new();
    let ghost attributes = field@.attributes;
    assert(relations_view(relations@) =~= relation_edges(
        table_name@,
        datatype@,
        attributes.take(0),
    )) by {
    }
    let mut i: usize = 0;
    while i < field.attributes.len()
        invariant
            i <= field.attributes.len(),
            attributes == field@.attributes,
            datatype@ == field@.field_type.datatype(),
            column@.name == field@.name,
            column@.datatype == datatype@,
            column@.constraints == field_constraints(attributes.take(i as int)),
            column@.well_formed(),
            relations_view(relations@) == relation_edges(
                table_name@,
                datatype@,
                attributes.take(i as int),
            ),
        decreases field.attributes.len() - i,
    {
        proof {
            attributes.lemma_take_succ_push(i as int);
            lemma_read_attribute(
                table_name@,
                datatype@,
                attributes.take(i as int),
                attributes[i as int],
            );
        }
        match classify(field.attributes[i].name.as_str()) {
            AttributeKind::PrimaryKeyMarker => {
                column.add_constraint(SqlConstraint::PrimaryKey);
            },
            AttributeKind::UniqueMarker => {
                column.add_constraint(SqlConstraint::Unique);
            },
            AttributeKind::RelationMarker => {
                relations.push(
                    D2Relation { from: table_name.to_owned(), to: datatype.clone(), label: None },
                );
            },
            AttributeKind::Unrecognized => {},
        }
        i += 1;
    }
    assert(attributes.take(i as int) =~= attributes);
    (column, relations)
}

/// Builds the table of a model and the edges its fields draw, in field order.
pub fn render_model(model: &Model) -> (rendered: (D2SqlTable, Vec<D2Relation>))
    ensures
        rendered.0@ == model_table(model@),
        relations_view(rendered.1@) == model_relations(model@),
{
    let mut table = D2SqlTable::with_name(model.name.clone());
    let mut relations: Vec<D2Relation> = Vec::new();
    let ghost fields = model@.fields;
    let mut i: usize = 0;
    while i < model.fields.len()
        invariant
            i <= model.fields.len(),
            fields == model@.fields,
            table@.name == model@.name,
            table@.columns == field_columns(fields.take(i as int)),
            relations_view(relations@) == fields_relations(model@.name, fields.take(i as int)),
        decreases model.fields.len() - i,
    {
        let (column, mut edges) = render_field(model.name.as_str(), &model.fields[i]);
        table.columns.push(column);
        relations.append(&mut edges);
        proof {
            fields.lemma_map_take_succ(|f: FieldView| field_column(f), i as int);
            fields.lemma_flat_map_take_append(
                |f: FieldView| field_relations(model@.name, f),
                i as int,
            );
        }
        i += 1;
    }
    assert(fields.take(i as int) =~= fields);
    (table, relations)
}

/// Builds the diagram of a schema: one table per model in declaration order,
/// then the edges in the order in which the relation fields are met.
///
/// Rendering never fails. Where the schema's models bear distinct, non-empty
/// names, so do the diagram's tables.
pub fn render(schema: &Schema) -> (diagram: D2Diagram)
    ensures
        diagram@ == schema_diagram(schema@),
        schema@.well_formed() ==> diagram@.well_formed(),
{
    let mut diagram = D2Diagram::new();
    let ghost models = schema@.models;
    let mut i: usize = 0;
    while i < schema.models.len()
        invariant
            i <= schema.models.len(),
            models == schema@.models,
            diagram@.sql_tables == model_tables(models.take(i as int)),
            diagram@.relations == models_relations(models.take(i as int)),
        decreases schema.models.len() - i,
    {
        let (table, mut edges) = render_model(&schema.models[i]);
        diagram.sql_tables.push(table);
        diagram.relations.append(&mut edges);
        proof {
            models.lemma_map_take_succ(|m: ModelView| model_table(m), i as int);
            models.lemma_flat_map_take_append(|m: ModelView| model_relations(m), i as int);
        }
        i += 1;
    }
    proof {
        assert(models.take(i as int) =~= models);
        lemma_diagram_well_formed(schema@);
    }
    diagram
}

} // verus!
