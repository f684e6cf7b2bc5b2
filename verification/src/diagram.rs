//! The diagram model: SQL-table shapes, their columns, and relation edges.

use vstd::prelude::*;

verus! {

/// A structural constraint shown next to a column.
#[derive(Clone, Copy, Debug, PartialEq, Eq, Structural)]
pub enum SqlConstraint {
    PrimaryKey,
    ForeignKey,
    Unique,
}

/// One column of a table shape.
///
/// `constraints` is an ordered set: the order is that of insertion, and
/// [`D2SqlColumn::add_constraint`] never stores a kind twice.
#[derive(Clone, Debug, PartialEq, Eq)]
pub struct D2SqlColumn {
    pub name: String,
    pub datatype: String,
    pub constraints: Vec<SqlConstraint>,
}

/// One table shape, named after a model.
#[derive(Clone, Debug, PartialEq, Eq)]
pub struct D2SqlTable {
    pub name: String,
    pub columns: Vec<D2SqlColumn>,
}

/// A directed edge between two tables.
#[derive(Clone, Debug, PartialEq, Eq)]
pub struct D2Relation {
    pub from: String,
    pub to: String,
    pub label: Option<String>,
}

/// A whole diagram: tables first, then relations.
#[derive(Clone, Debug, PartialEq, Eq)]
pub struct D2Diagram {
    pub sql_tables: Vec<D2SqlTable>,
    pub relations: Vec<D2Relation>,
}

/// The value of a [`D2SqlColumn`].
pub struct ColumnView {
    pub name: Seq<char>,
    pub datatype: Seq<char>,
    pub constraints: Seq<SqlConstraint>,
}

/// The value of a [`D2SqlTable`].
pub struct TableView {
    pub name: Seq<char>,
    pub columns: Seq<ColumnView>,
}

/// The value of a [`D2Relation`].
pub struct RelationView {
    pub from: Seq<char>,
    pub to: Seq<char>,
    pub label: Option<Seq<char>>,
}

/// The value of a [`D2Diagram`].
pub struct DiagramView {
    pub sql_tables: Seq<TableView>,
    pub relations: Seq<RelationView>,
}

/// Ordered-set insertion: `c` goes to the end unless it is already there.
pub open spec fn insert_constraint(cs: Seq<SqlConstraint>, c: SqlConstraint) -> Seq<SqlConstraint> {
    if cs.contains(c) {
        cs
    } else {
        cs.push(c)
    }
}

/// The values of a sequence of columns, in order.
pub open spec fn columns_view(columns: Seq<D2SqlColumn>) -> Seq<ColumnView> {
    Seq::new(columns.len(), |i: int| columns[i]@)
}

/// The values of a sequence of tables, in order.
pub open spec fn tables_view(tables: Seq<D2SqlTable>) -> Seq<TableView> {
    Seq::new(tables.len(), |i: int| tables[i]@)
}

/// The values of a sequence of relations, in order.
pub open spec fn relations_view(relations: Seq<D2Relation>) -> Seq<RelationView> {
    Seq::new(relations.len(), |i: int| relations[i]@)
}

impl View for D2SqlColumn {
    type V = ColumnView;

    open spec fn view(&self) -> ColumnView {
        ColumnView { name: self.name@, datatype: self.datatype@, constraints: self.constraints@ }
    }
}

impl View for D2SqlTable {
    type V = TableView;

    open spec fn view(&self) -> TableView {
        TableView { name: self.name@, columns: columns_view(self.columns@) }
    }
}

impl View for D2Relation {
    type V = RelationView;

    open spec fn view(&self) -> RelationView {
        RelationView {
            from: self.from@,
            to: self.to@,
            label: match self.label {
                Some(l) => Some(l@),
                None => None,
            },
        }
    }
}

impl View for D2Diagram {
    type V = DiagramView;

    open spec fn view(&self) -> DiagramView {
        DiagramView {
            sql_tables: tables_view(self.sql_tables@),
            relations: relations_view(self.relations@),
        }
    }
}

impl ColumnView {
    /// No constraint kind is listed twice.
    pub open spec fn well_formed(self) -> bool {
        self.constraints.no_duplicates()
    }
}

impl TableView {
    /// The table has a name and each of its columns is well formed.
    pub open spec fn well_formed(self) -> bool {
        &&& self.name.len() > 0
        &&& forall|j: int| 0 <= j < self.columns.len() ==> (#[trigger] self.columns[j]).well_formed()
    }
}

impl DiagramView {
    /// Each table is well formed and no two tables share a name.
    pub open spec fn well_formed(self) -> bool {
        &&& forall|i: int|
            0 <= i < self.sql_tables.len() ==> (#[trigger] self.sql_tables[i]).well_formed()
        &&& forall|i: int, j: int|
            0 <= i < j < self.sql_tables.len() ==> (#[trigger] self.sql_tables[i]).name != (
            #[trigger] self.sql_tables[j]).name
    }
}

impl D2SqlColumn {
    /// A column with the given name and datatype and no constraints.
    pub fn with_name_and_datatype(name: String, datatype: String) -> (column: Self)
        ensures
            column@ == (ColumnView {
                name: name@,
                datatype: datatype@,
                constraints: Seq::empty(),
            }),
            column@.well_formed(),
    {
        D2SqlColumn { name, datatype, constraints: Vec::new() }
    }

    /// Whether `constraint` is attached to this column.
    pub fn has_constraint(&self, constraint: SqlConstraint) -> (found: bool)
        ensures
            found == self@.constraints.contains(constraint),
    {
        let mut i: usize = 0;
        while i < self.constraints.len()
            invariant
                i <= self.constraints.len(),
                forall|k: int| 0 <= k < i ==> self.constraints@[k] != constraint,
            decreases self.constraints.len() - i,
        {
            if self.constraints[i] == constraint {
                return true;
            }
            i += 1;
        }
        false
    }

    /// Attaches `constraint` unless the column already has it.
    pub fn add_constraint(&mut self, constraint: SqlConstraint)
        ensures
            final(self)@ == (ColumnView {
                constraints: insert_constraint(old(self)@.constraints, constraint),
                ..old(self)@
            }),
            old(self)@.well_formed() ==> final(self)@.well_formed(),
    {
        if !self.has_constraint(constraint) {
            self.constraints.push(constraint);
        }
    }
}

impl D2SqlTable {
    /// A table with the given name and no columns.
    pub fn with_name(name: String) -> (table: Self)
        ensures
            table@ == (TableView { name: name@, columns: Seq::empty() }),
            table@.well_formed() <==> name@.len() > 0,
    {
        let table = D2SqlTable { name, columns: Vec::new() };
        assert(table@.columns =~= Seq::empty());
        table
    }
}

impl D2Diagram {
    /// The empty diagram.
    pub fn new() -> (diagram: Self)
        ensures
            diagram@ == (DiagramView { sql_tables: Seq::empty(), relations: Seq::empty() }),
            diagram@.well_formed(),
    {
        let diagram = D2Diagram { sql_tables: Vec::new(), relations: Vec::new() };
        assert(diagram@.sql_tables =~= Seq::empty());
        assert(diagram@.relations =~= Seq::empty());
        diagram
    }
}

} // verus!
