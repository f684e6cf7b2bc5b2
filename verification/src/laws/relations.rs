//! Relations: which edges a field draws, and where their lines stand.

use crate::classify::{kind_of, AttributeKind};
use crate::diagram::{DiagramView, RelationView};
use crate::laws::constraints::has_attribute;
use crate::laws::order::lemma_flat_map_split;
use crate::laws::schema_text;
use crate::render::{
    edge, field_relations, is_relation, lemma_read_attribute, model_relations, model_tables,
    relation_edges, schema_diagram,
};
use crate::schema::{AttributeView, FieldView, ModelView, SchemaView};
use crate::text::{diagram_text, relation_line, relation_lines, table_blocks};
use vstd::prelude::*;

verus! {

/// Whether at most one attribute in `attributes` is a relation attribute.
pub open spec fn at_most_one_relation(attributes: Seq<AttributeView>) -> bool {
    forall|i: int, j: int|
        0 <= i < j < attributes.len() ==> !(#[trigger] is_relation(attributes[i])
            && #[trigger] is_relation(attributes[j]))
}

/// Whether a field carries a relation attribute.
pub open spec fn is_relation_field(field: FieldView) -> bool {
    has_attribute(field.attributes, AttributeKind::RelationMarker)
}

/// Every edge that a field draws goes from its table to its datatype and
/// has no label; there is one edge per relation attribute, so none for a
/// field without such an attribute. A field with at most one relation
/// attribute draws exactly one edge if it has one.
pub proof fn lemma_field_relations(table: Seq<char>, field: FieldView)
    ensures
        forall|k: int|
            0 <= k < field_relations(table, field).len() ==> #[trigger] field_relations(
                table,
                field,
            )[k] == edge(table, field.field_type.datatype()),
        field_relations(table, field).len() > 0 <==> is_relation_field(field),
        at_most_one_relation(field.attributes) ==> field_relations(table, field)
            == if is_relation_field(field) {
            seq![edge(table, field.field_type.datatype())]
        } else {
            Seq::<RelationView>::empty()
        },
{
    lemma_relation_count(table, field.field_type.datatype(), field.attributes);
}

/// The number of edges drawn for a list of attributes: none without a
/// relation attribute, at least one with one, at most one if the list has
/// at most one.
proof fn lemma_relation_count(from: Seq<char>, to: Seq<char>, attributes: Seq<AttributeView>)
    ensures
        relation_edges(from, to, attributes).len() > 0 <==> has_attribute(
            attributes,
            AttributeKind::RelationMarker,
        ),
        at_most_one_relation(attributes) ==> relation_edges(from, to, attributes).len() <= 1,
    decreases attributes.len(),
{
    if attributes.len() > 0 {
        let front = attributes.drop_last();
        let a = attributes.last();
        assert(front.push(a) =~= attributes);
        lemma_relation_count(from, to, front);
        lemma_read_attribute(from, to, front, a);
        if at_most_one_relation(attributes) {
            assert(at_most_one_relation(front)) by {
                assert forall|i: int, j: int| 0 <= i < j < front.len() implies !(
                #[trigger] is_relation(front[i]) && #[trigger] is_relation(front[j])) by {
                    assert(front[i] == attributes[i] && front[j] == attributes[j]);
                }
            }
            if is_relation(a) && has_attribute(front, AttributeKind::RelationMarker) {
                // An earlier relation attribute beside the last one: there is none.
                let i = choose|i: int|
                    0 <= i < front.len() && #[trigger] kind_of(front[i].name)
                        == AttributeKind::RelationMarker;
                assert(is_relation(attributes[i]) && is_relation(attributes[attributes.len() - 1]));
            }
        }
    }
}

/// The edges of a model if each relation field draws one: its relation
/// fields in order, each with an edge from the model to the field's datatype.
pub open spec fn relation_field_edges(model: ModelView) -> Seq<RelationView> {
    model.fields.filter(|f: FieldView| is_relation_field(f)).map_values(
        |f: FieldView| edge(model.name, f.field_type.datatype()),
    )
}

/// Whether no field of the schema carries more than one relation attribute.
pub open spec fn single_relations(schema: SchemaView) -> bool {
    forall|i: int, j: int|
        0 <= i < schema.models.len() && 0 <= j < schema.models[i].fields.len()
            ==> at_most_one_relation((#[trigger] schema.models[i].fields[j]).attributes)
}

/// Where no field carries more than one relation attribute, each relation
/// field draws exactly one edge and other fields draw none: the edges of
/// the diagram are the relation fields in schema order, each from its model
/// to its datatype.
pub proof fn lemma_one_edge_per_relation_field(schema: SchemaView)
    requires
        single_relations(schema),
    ensures
        schema_diagram(schema).relations == schema.models.flat_map(
            |m: ModelView| relation_field_edges(m),
        ),
{
    let drawn = schema.models.map_values(|m: ModelView| model_relations(m));
    let expected = schema.models.map_values(|m: ModelView| relation_field_edges(m));
    assert forall|i: int| 0 <= i < schema.models.len() implies drawn[i] == expected[i] by {
        let model = schema.models[i];
        assert forall|j: int| 0 <= j < model.fields.len() implies at_most_one_relation(
            (#[trigger] model.fields[j]).attributes,
        ) by {
            assert(at_most_one_relation(schema.models[i].fields[j].attributes));
        }
        lemma_model_relation_fields(model);
    }
    assert(drawn =~= expected);
}

/// The same for one model: its edges are its relation fields in order.
proof fn lemma_model_relation_fields(model: ModelView)
    requires
        forall|j: int|
            0 <= j < model.fields.len() ==> at_most_one_relation(
                (#[trigger] model.fields[j]).attributes,
            ),
    ensures
        model_relations(model) == relation_field_edges(model),
    decreases model.fields.len(),
{
    let name = model.name;
    let fields = model.fields;
    if fields.len() > 0 {
        let front = fields.drop_last();
        let f = fields.last();
        assert(front.push(f) =~= fields);
        lemma_model_relation_fields(ModelView { name, fields: front });
        front.lemma_flat_map_push(|f: FieldView| field_relations(name, f), f);
        front.lemma_filter_push(f, |f: FieldView| is_relation_field(f));
        lemma_field_relations(name, f);
    }
}

/// The line of an unlabelled edge is `from -> to`.
pub proof fn lemma_edge_line(from: Seq<char>, to: Seq<char>)
    ensures
        relation_line(edge(from, to)) == from + " -> "@ + to,
{
}

/// Where no field carries more than one relation attribute, the text ends
/// with one line for each relation field, in schema order, from the field's
/// model to its datatype, and holds no other relation line.
pub proof fn lemma_relation_emission(schema: SchemaView)
    requires
        single_relations(schema),
    ensures
        schema_text(schema) == table_blocks(model_tables(schema.models)) + relation_lines(
            schema.models.flat_map(|m: ModelView| relation_field_edges(m)),
        ),
{
    lemma_one_edge_per_relation_field(schema);
}

/// In the text the relation lines stand in relation order, after all table
/// blocks: before the line of relation `j` stand the table blocks and the
/// lines of the relations before it, after it those of the relations after it.
pub proof fn lemma_relation_line_position(d: DiagramView, j: int)
    requires
        0 <= j < d.relations.len(),
    ensures
        diagram_text(d) == table_blocks(d.sql_tables) + relation_lines(d.relations.take(j))
            + relation_line(d.relations[j]) + "\n\n"@ + relation_lines(d.relations.skip(j + 1)),
{
    lemma_flat_map_split(d.relations, |r: RelationView| relation_line(r) + "\n\n"@, j);
}

} // verus!
