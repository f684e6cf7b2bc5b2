//! The serializer: the d2 text of a diagram.
//!
//! ```text
//! User {
//! 	shape: sql_table
//! 	id: Int { constraint: [primary_key] }
//! }
//!
//! Post -> User
//! ```
//!
//! Each table block and each relation line is followed by an empty line.

use crate::diagram::{
    ColumnView, D2Diagram, D2Relation, D2SqlColumn, D2SqlTable, DiagramView, RelationView,
    SqlConstraint, TableView,
};
use vstd::prelude::*;

verus! {

/// The d2 keyword of a constraint.
pub open spec fn constraint_keyword(c: SqlConstraint) -> Seq<char> {
    match c {
        SqlConstraint::PrimaryKey => "primary_key"@,
        SqlConstraint::ForeignKey => "foreign_key"@,
        SqlConstraint::Unique => "unique"@,
    }
}

/// The parts in order, with `separator` between each two neighbours.
pub open spec fn join(parts: Seq<Seq<char>>, separator: Seq<char>) -> Seq<char>
    decreases parts.len(),
{
    if parts.len() == 0 {
        Seq::empty()
    } else if parts.len() == 1 {
        parts[0]
    } else {
        join(parts.drop_last(), separator) + separator + parts.last()
    }
}

/// The keywords of the constraints in order, joined with `"; "`.
pub open spec fn constraint_list(cs: Seq<SqlConstraint>) -> Seq<char> {
    join(cs.map_values(|c: SqlConstraint| constraint_keyword(c)), "; "@)
}

/// Listing one more constraint appends its keyword, after the separator
/// unless it is the first.
pub proof fn lemma_constraint_list_push(cs: Seq<SqlConstraint>, c: SqlConstraint)
    ensures
        constraint_list(cs.push(c)) == if cs.len() == 0 {
            constraint_keyword(c)
        } else {
            constraint_list(cs) + "; "@ + constraint_keyword(c)
        },
{
    let keywords = cs.map_values(|c: SqlConstraint| constraint_keyword(c));
    let longer = cs.push(c).map_values(|c: SqlConstraint| constraint_keyword(c));
    assert(longer.drop_last() =~= keywords);
}

/// What follows a column's datatype: nothing for a column without
/// constraints, else the bracketed constraint list.
pub open spec fn constraint_annotation(cs: Seq<SqlConstraint>) -> Seq<char> {
    if cs.len() == 0 {
        Seq::empty()
    } else {
        " { constraint: ["@ + constraint_list(cs) + "] }"@
    }
}

/// The line of a column inside its table block, with its line break.
pub open spec fn column_line(c: ColumnView) -> Seq<char> {
    "\t"@ + c.name + ": "@ + c.datatype + constraint_annotation(c.constraints) + "\n"@
}

/// The lines of the columns, in order.
pub open spec fn column_lines(columns: Seq<ColumnView>) -> Seq<char> {
    columns.flat_map(|c: ColumnView| column_line(c))
}

/// What opens a table block: the name, the opening brace and the shape line.
pub open spec fn table_head(name: Seq<char>) -> Seq<char> {
    name + " {\n"@ + "\tshape: sql_table\n"@
}

/// The block of a table, from its name to the closing brace.
pub open spec fn table_block(t: TableView) -> Seq<char> {
    table_head(t.name) + column_lines(t.columns) + "}"@
}

/// The line of a relation, without a line break.
pub open spec fn relation_line(r: RelationView) -> Seq<char> {
    r.from + " -> "@ + r.to + match r.label {
        Some(label) => ": "@ + label,
        None => Seq::empty(),
    }
}

/// The table blocks in order, each followed by an empty line.
pub open spec fn table_blocks(tables: Seq<TableView>) -> Seq<char> {
    tables.flat_map(|t: TableView| table_block(t) + "\n\n"@)
}

/// The relation lines in order, each followed by an empty line.
pub open spec fn relation_lines(relations: Seq<RelationView>) -> Seq<char> {
    relations.flat_map(|r: RelationView| relation_line(r) + "\n\n"@)
}

/// The d2 text of a diagram: all table blocks, then all relation lines.
pub open spec fn diagram_text(d: DiagramView) -> Seq<char> {
    table_blocks(d.sql_tables) + relation_lines(d.relations)
}

impl SqlConstraint {
    /// The d2 keyword of this constraint.
    pub fn to_string(&self) -> (text: String)
        ensures
            text@ == constraint_keyword(*self),
    {
        match self {
            SqlConstraint::PrimaryKey => String::from_str("primary_key"),
            SqlConstraint::ForeignKey => String::from_str("foreign_key"),
            SqlConstraint::Unique => String::from_str("unique"),
        }
    }
}

impl D2SqlColumn {
    /// The keywords of this column's constraints, joined with `"; "`.
    pub fn constraint_list(&self) -> (text: String)
        ensures
            text@ == constraint_list(self@.constraints),
    {
        let mut text = String::new();
        let ghost constraints = self@.constraints;
        let mut i: usize = 0;
        while i < self.constraints.len()
            invariant
                i <= self.constraints.len(),
                constraints == self@.constraints,
                text@ == constraint_list(constraints.take(i as int)),
            decreases self.constraints.len() - i,
        {
            proof {
                constraints.lemma_take_succ_push(i as int);
                lemma_constraint_list_push(constraints.take(i as int), constraints[i as int]);
            }
            if i > 0 {
                text.append("; ");
            }
            text.append(self.constraints[i].to_string().as_str());
            i += 1;
        }
        assert(constraints.take(i as int) =~= constraints);
        text
    }

    /// The line of this column inside its table block, with its line break.
    pub fn to_string(&self) -> (text: String)
        ensures
            text@ == column_line(self@),
    {
        let mut text = String::from_str("\t");
        text.append(self.name.as_str());
        text.append(": ");
        text.append(self.datatype.as_str());
        if self.constraints.len() > 0 {
            text.append(" { constraint: [");
            text.append(self.constraint_list().as_str());
            text.append("] }");
        }
        text.append("\n");
        text
    }
}

impl D2SqlTable {
    /// The block of this table: its name, the shape line, one line per
    /// column in order, and the closing brace.
    pub fn to_string(&self) -> (text: String)
        ensures
            text@ == table_block(self@),
    {
        let mut text = String::new();
        text.append(self.name.as_str());
        text.append(" {\n");
        text.append("\tshape: sql_table\n");
        let ghost columns = self@.columns;
        let mut i: usize = 0;
        while i < self.columns.len()
            invariant
                i <= self.columns.len(),
                columns == self@.columns,
                text@ == table_head(self@.name) + column_lines(columns.take(i as int)),
            decreases self.columns.len() - i,
        {
            text.append(self.columns[i].to_string().as_str());
            proof {
                columns.lemma_flat_map_take_append(|c: ColumnView| column_line(c), i as int);
            }
            i += 1;
        }
        assert(columns.take(i as int) =~= columns);
        text.append("}");
        text
    }
}

impl D2Relation {
    /// The line of this relation: `from -> to`, then `: label` if there is one.
    pub fn to_string(&self) -> (text: String)
        ensures
            text@ == relation_line(self@),
    {
        let mut text = String::new();
        text.append(self.from.as_str());
        text.append(" -> ");
        text.append(self.to.as_str());
        if let Some(label) = &self.label {
            text.append(": ");
            text.append(label.as_str());
        }
        text
    }
}

impl D2Diagram {
    /// The d2 text of this diagram: every table block in order, then every
    /// relation line in order, each followed by an empty line.
    pub fn to_string(&self) -> (text: String)
        ensures
            text@ == diagram_text(self@),
    {
        let mut text = String::new();
        let ghost tables = self@.sql_tables;
        let mut i: usize = 0;
        while i < self.sql_tables.len()
            invariant
                i <= self.sql_tables.len(),
                tables == self@.sql_tables,
                text@ == table_blocks(tables.take(i as int)),
            decreases self.sql_tables.len() - i,
        {
            text.append(self.sql_tables[i].to_string().as_str());
            text.append("\n\n");
            proof {
                tables.lemma_flat_map_take_append(
                    |t: TableView| table_block(t) + "\n\n"@,
                    i as int,
                );
            }
            i += 1;
        }
        assert(tables.take(i as int) =~= tables);
        let ghost relations = self@.relations;
        let mut j: usize = 0;
        while j < self.relations.len()
            invariant
                j <= self.relations.len(),
                tables == self@.sql_tables,
                relations == self@.relations,
                text@ == table_blocks(tables) + relation_lines(relations.take(j as int)),
            decreases self.relations.len() - j,
        {
            text.append(self.relations[j].to_string().as_str());
            text.append("\n\n");
            proof {
                relations.lemma_flat_map_take_append(
                    |r: RelationView| relation_line(r) + "\n\n"@,
                    j as int,
                );
            }
            j += 1;
        }
        assert(relations.take(j as int) =~= relations);
        text
    }
}

} // verus!
