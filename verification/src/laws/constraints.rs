//! Constraints: which ones a column lists, and how its line names them.

use crate::classify::{kind_of, AttributeKind};
use crate::diagram::{insert_constraint, SqlConstraint};
use crate::render::{field_column, field_constraints, with_attribute};
use crate::schema::{AttributeView, FieldView};
use crate::text::{column_line, constraint_annotation, constraint_keyword, constraint_list, join};
use vstd::prelude::*;

verus! {

/// Whether some attribute in `attributes` is of the given kind.
pub open spec fn has_attribute(attributes: Seq<AttributeView>, kind: AttributeKind) -> bool {
    exists|i: int| 0 <= i < attributes.len() && #[trigger] kind_of(attributes[i].name) == kind
}

/// A column lists `PrimaryKey` exactly if its field carries an `id`
/// attribute and `Unique` exactly if it carries a `unique` attribute. It
/// never lists `ForeignKey`, and it lists no constraint twice.
pub proof fn lemma_constraints_complete(attributes: Seq<AttributeView>)
    ensures
        field_constraints(attributes).contains(SqlConstraint::PrimaryKey) <==> has_attribute(
            attributes,
            AttributeKind::PrimaryKeyMarker,
        ),
        field_constraints(attributes).contains(SqlConstraint::Unique) <==> has_attribute(
            attributes,
            AttributeKind::UniqueMarker,
        ),
        !field_constraints(attributes).contains(SqlConstraint::ForeignKey),
        field_constraints(attributes).no_duplicates(),
    decreases attributes.len(),
{
    if attributes.len() > 0 {
        let front = attributes.drop_last();
        let a = attributes.last();
        let before = field_constraints(front);
        lemma_constraints_complete(front);
        assert(front.push(a) =~= attributes);
        lemma_insert_contains(before, SqlConstraint::PrimaryKey, SqlConstraint::PrimaryKey);
        lemma_insert_contains(before, SqlConstraint::PrimaryKey, SqlConstraint::Unique);
        lemma_insert_contains(before, SqlConstraint::Unique, SqlConstraint::PrimaryKey);
        lemma_insert_contains(before, SqlConstraint::Unique, SqlConstraint::Unique);
    }
}

/// After an ordered-set insertion of `c`, the sequence holds what it held
/// before, and `c`.
pub proof fn lemma_insert_contains(cs: Seq<SqlConstraint>, c: SqlConstraint, other: SqlConstraint)
    ensures
        insert_constraint(cs, c).contains(other) <==> cs.contains(other) || other == c,
{
    if !cs.contains(c) {
        let grown = cs.push(c);
        assert(grown[cs.len() as int] == c);
        if cs.contains(other) {
            let k = choose|k: int| 0 <= k < cs.len() && cs[k] == other;
            assert(grown[k] == other);
        }
    }
}

/// Reading further attributes only appends constraints: what the first `n`
/// attributes imply stands, in the same order, at the front of what all of
/// them imply. So the constraints are listed in the order in which their
/// first attributes come.
pub proof fn lemma_constraints_grow(attributes: Seq<AttributeView>, n: int)
    requires
        0 <= n <= attributes.len(),
    ensures
        field_constraints(attributes.take(n)).is_prefix_of(field_constraints(attributes)),
    decreases attributes.len(),
{
    if n < attributes.len() {
        let front = attributes.drop_last();
        lemma_constraints_grow(front, n);
        assert(front.take(n) =~= attributes.take(n));
    }
}

/// The constraints of a field are one of five lists, told apart by whether
/// the field carries an `id` and whether it carries a `unique` attribute.
pub proof fn lemma_constraint_shapes(attributes: Seq<AttributeView>)
    ensures
        ({
            let cs = field_constraints(attributes);
            let id = has_attribute(attributes, AttributeKind::PrimaryKeyMarker);
            let unique = has_attribute(attributes, AttributeKind::UniqueMarker);
            &&& !id && !unique ==> cs == Seq::<SqlConstraint>::empty()
            &&& id && !unique ==> cs == seq![SqlConstraint::PrimaryKey]
            &&& !id && unique ==> cs == seq![SqlConstraint::Unique]
            &&& id && unique ==> cs == seq![SqlConstraint::PrimaryKey, SqlConstraint::Unique] || cs
                == seq![SqlConstraint::Unique, SqlConstraint::PrimaryKey]
        }),
{
    let cs = field_constraints(attributes);
    lemma_constraints_complete(attributes);
    // Each entry is one of two kinds and none occurs twice: at most two entries.
    assert forall|k: int| 0 <= k < cs.len() implies cs[k] == SqlConstraint::PrimaryKey || cs[k]
        == SqlConstraint::Unique by {}
    if cs.len() >= 3 {
        assert(cs[0] != cs[1] && cs[0] != cs[2] && cs[1] != cs[2]);
    }
    if cs.len() == 1 {
        assert(cs =~= seq![cs[0]]);
    }
}

/// Where a field carries both an `id` and a `unique` attribute, the
/// constraint whose first attribute comes first is listed first.
pub proof fn lemma_constraint_order(attributes: Seq<AttributeView>, i: int, j: int)
    requires
        0 <= i < j < attributes.len(),
        kind_of(attributes[i].name) == AttributeKind::PrimaryKeyMarker || kind_of(
            attributes[i].name,
        ) == AttributeKind::UniqueMarker,
        kind_of(attributes[j].name) == AttributeKind::PrimaryKeyMarker || kind_of(
            attributes[j].name,
        ) == AttributeKind::UniqueMarker,
        forall|k: int|
            0 <= k < j ==> kind_of(#[trigger] attributes[k].name) != kind_of(attributes[j].name),
    ensures
        field_constraints(attributes) == if kind_of(attributes[i].name)
            == AttributeKind::PrimaryKeyMarker {
            seq![SqlConstraint::PrimaryKey, SqlConstraint::Unique]
        } else {
            seq![SqlConstraint::Unique, SqlConstraint::PrimaryKey]
        },
{
    let early = attributes.take(j);
    let first = kind_of(attributes[i].name);
    let second = kind_of(attributes[j].name);
    // Before `j` only the first kind is met, so only its constraint is listed.
    assert(kind_of(early[i].name) == first);
    assert(!has_attribute(early, second)) by {
        if has_attribute(early, second) {
            let k = choose|k: int|
                0 <= k < early.len() && #[trigger] kind_of(early[k].name) == second;
            assert(kind_of(attributes[k].name) == second);
        }
    }
    lemma_constraint_shapes(early);
    // That one-entry list is the front of the whole list, which has both.
    lemma_constraints_grow(attributes, j);
    lemma_constraint_shapes(attributes);
    assert(field_constraints(attributes)[0] == field_constraints(early)[0]);
}

/// Whether `needle` stands in `text` at the offset `at`.
pub open spec fn occurs_at(needle: Seq<char>, text: Seq<char>, at: int) -> bool {
    &&& 0 <= at
    &&& at + needle.len() <= text.len()
    &&& text.subrange(at, at + needle.len()) == needle
}

/// Whether `needle` stands somewhere in `text`.
pub open spec fn occurs_in(needle: Seq<char>, text: Seq<char>) -> bool {
    exists|at: int| occurs_at(needle, text, at)
}

/// What stands between `before` and `after` occurs right after `before`.
pub proof fn lemma_occurs_between(before: Seq<char>, needle: Seq<char>, after: Seq<char>)
    ensures
        occurs_at(needle, before + needle + after, before.len() as int),
{
    let text = before + needle + after;
    let at = before.len() as int;
    assert(text.subrange(at, at + needle.len()) =~= needle);
}

/// Each part stands in the joined text, between what `around` returns.
pub proof fn lemma_join_part(parts: Seq<Seq<char>>, separator: Seq<char>, i: int) -> (around: (
    Seq<char>,
    Seq<char>,
))
    requires
        0 <= i < parts.len(),
    ensures
        join(parts, separator) == around.0 + parts[i] + around.1,
    decreases parts.len(),
{
    if parts.len() == 1 {
        (Seq::empty(), Seq::empty())
    } else if i == parts.len() - 1 {
        (join(parts.drop_last(), separator) + separator, Seq::empty())
    } else {
        let inner = lemma_join_part(parts.drop_last(), separator, i);
        (inner.0, inner.1 + separator + parts.last())
    }
}

/// The annotation of a column names each constraint that the column lists.
pub proof fn lemma_keyword_in_annotation(cs: Seq<SqlConstraint>, k: SqlConstraint)
    requires
        cs.contains(k),
    ensures
        occurs_in(constraint_keyword(k), constraint_annotation(cs)),
{
    let i = choose|i: int| 0 <= i < cs.len() && cs[i] == k;
    let keywords = cs.map_values(|c: SqlConstraint| constraint_keyword(c));
    let around = lemma_join_part(keywords, "; "@, i);
    let before = " { constraint: ["@ + around.0;
    let after = around.1 + "] }"@;
    assert(constraint_annotation(cs) =~= before + constraint_keyword(k) + after);
    lemma_occurs_between(before, constraint_keyword(k), after);
}

/// A column has an annotation exactly if it lists a constraint.
pub proof fn lemma_annotation_empty(cs: Seq<SqlConstraint>)
    ensures
        constraint_annotation(cs).len() == 0 <==> cs.len() == 0,
{
    reveal_strlit(" { constraint: [");
}

/// The text of the constraint list of a field: the keywords of the
/// constraints that its attributes imply.
pub proof fn lemma_constraint_list_forms(attributes: Seq<AttributeView>)
    ensures
        ({
            let list = constraint_list(field_constraints(attributes));
            let id = has_attribute(attributes, AttributeKind::PrimaryKeyMarker);
            let unique = has_attribute(attributes, AttributeKind::UniqueMarker);
            &&& !id && !unique ==> list == Seq::<char>::empty()
            &&& id && !unique ==> list == "primary_key"@
            &&& !id && unique ==> list == "unique"@
            &&& id && unique ==> list == "primary_key"@ + "; "@ + "unique"@ || list == "unique"@
                + "; "@ + "primary_key"@
        }),
{
    lemma_constraint_shapes(attributes);
    reveal_with_fuel(join, 3);
}

/// The line of a field is its name and datatype, then the annotation of its
/// constraints. The annotation names `primary_key` if the field carries an
/// `id` attribute and `unique` if it carries a `unique` attribute, and there
/// is no annotation exactly if the field carries neither.
pub proof fn lemma_constraint_completeness(field: FieldView)
    ensures
        ({
            let annotation = constraint_annotation(field_constraints(field.attributes));
            let id = has_attribute(field.attributes, AttributeKind::PrimaryKeyMarker);
            let unique = has_attribute(field.attributes, AttributeKind::UniqueMarker);
            &&& column_line(field_column(field)) == "\t"@ + field.name + ": "@
                + field.field_type.datatype() + annotation + "\n"@
            &&& id ==> occurs_in("primary_key"@, annotation)
            &&& unique ==> occurs_in("unique"@, annotation)
            &&& !id && !unique <==> annotation.len() == 0
        }),
{
    let cs = field_constraints(field.attributes);
    lemma_constraint_shapes(field.attributes);
    lemma_annotation_empty(cs);
    if has_attribute(field.attributes, AttributeKind::PrimaryKeyMarker) {
        lemma_keyword_in_annotation(cs, SqlConstraint::PrimaryKey);
    }
    if has_attribute(field.attributes, AttributeKind::UniqueMarker) {
        lemma_keyword_in_annotation(cs, SqlConstraint::Unique);
    }
}

} // verus!
