//! The tables of the relational store.
use vstd::prelude::*;
use crate::value::{cells, Cell, Predicate, Term, Value, predicate_holds};

verus! {

/// Every table of the store. All rows are reached through one of these.
#[derive(Debug, Clone, Copy, PartialEq, Eq, Structural)]
pub enum Table {
    Users,
    PulsarMetas,
    ParMetas,
    RawMetas,
    TemplateMetas,
    Toas,
    Telescopes,
    ObsSystems,
    ProcessMetas,
    DiagnosticFloats,
    DiagnosticPlots,
}

/// The name of a table in the store's schema.
pub open spec fn table_name(t: Table) -> Seq<char> {
    match t {
        Table::Users => "users"@,
        Table::PulsarMetas => "pulsar_meta"@,
        Table::ParMetas => "par_meta"@,
        Table::RawMetas => "raw_meta"@,
        Table::TemplateMetas => "template_meta"@,
        Table::Toas => "toas"@,
        Table::Telescopes => "telescopes"@,
        Table::ObsSystems => "obs_systems"@,
        Table::ProcessMetas => "process_meta"@,
        Table::DiagnosticFloats => "diag_floats"@,
        Table::DiagnosticPlots => "diag_plots"@,
    }
}

impl Table {
    /// The name of the table in the schema.
    pub fn name(self) -> (r: &'static str)
        ensures
            r@ == table_name(self),
    {
        match self {
            Table::Users => "users",
            Table::PulsarMetas => "pulsar_meta",
            Table::ParMetas => "par_meta",
            Table::RawMetas => "raw_meta",
            Table::TemplateMetas => "template_meta",
            Table::Toas => "toas",
            Table::Telescopes => "telescopes",
            Table::ObsSystems => "obs_systems",
            Table::ProcessMetas => "process_meta",
            Table::DiagnosticFloats => "diag_floats",
            Table::DiagnosticPlots => "diag_plots",
        }
    }
}


/// The models of a list of column names.
pub open spec fn column_names(v: Seq<&'static str>) -> Seq<Seq<char>> {
    v.map_values(|c: &'static str| c@)
}

/// The capability every entity type of the store has: which table it lives in,
/// its columns, which of them are unique, and how it maps to and from a row.
///
/// A row lists the entity's cells in the order of its insert columns; the
/// identity column `id` is kept apart and is assigned by the store.
pub trait TableItem: Sized {
    spec fn spec_table() -> Table;

    /// The insert columns, in order.
    spec fn spec_columns() -> Seq<Seq<char>>;

    /// The positions, among the insert columns, of the unique ones.
    spec fn spec_unique() -> Seq<int>;

    spec fn spec_id(&self) -> i32;

    /// The cells of the entity, one per insert column.
    spec fn spec_row(&self) -> Seq<Cell>;

    /// Whether a row holds, in each column, a cell of that column's kind.
    spec fn spec_decodable(row: Seq<Cell>) -> bool;

    fn table() -> (r: Table)
        ensures
            r == Self::spec_table(),
    ;

    fn id(&self) -> (r: i32)
        ensures
            r == self.spec_id(),
    ;

    fn insert_columns() -> (r: Vec<&'static str>)
        ensures
            column_names(r@) == Self::spec_columns(),
    ;

    fn unique_columns() -> (r: Vec<usize>)
        ensures
            r@.len() == Self::spec_unique().len(),
            forall|k: int| 0 <= k < r@.len() ==> r@[k] as int == Self::spec_unique()[k],
    ;

    fn insert_values(&self) -> (r: Vec<Value>)
        ensures
            cells(r@) == self.spec_row(),
    ;

    /// Reads an entity back from its identity and its row.
    fn from_row(id: i32, row: &Vec<Value>) -> (r: Option<Self>)
        ensures
            r is Some <==> Self::spec_decodable(cells(row@)),
            r matches Some(e) ==> e.spec_id() == id && e.spec_row() == cells(row@),
    ;

    /// The shape of the table: unique positions among the columns, and every
    /// entity's row of the right length and decodable.
    proof fn lemma_shape(&self)
        ensures
            self.spec_row().len() == Self::spec_columns().len(),
            Self::spec_decodable(self.spec_row()),
            forall|k: int|
                0 <= k < Self::spec_unique().len() ==> 0 <= #[trigger] Self::spec_unique()[k]
                    < Self::spec_columns().len(),
    ;
}

/// Two rows collide when they hold the same non-NULL cell in one of the
/// unique columns.
pub open spec fn collides(unique: Seq<int>, a: Seq<Cell>, b: Seq<Cell>) -> bool {
    exists|k: int|
        0 <= k < unique.len() && a[unique[k]] != Cell::Null && #[trigger] a[unique[k]]
            == b[unique[k]]
}

/// The uniqueness predicate of an entity: one comparison per unique column,
/// joined by `or`, so that a match on any one of them is a collision.
pub open spec fn is_unique_filter<T: TableItem>(item: T, p: Predicate) -> bool {
    &&& p.any
    &&& p.terms@.len() == T::spec_unique().len()
    &&& forall|k: int|
        0 <= k < p.terms@.len() ==> {
            &&& (#[trigger] p.terms@[k]).column@ == T::spec_columns()[T::spec_unique()[k]]
            &&& p.terms@[k].value@ == item.spec_row()[T::spec_unique()[k]]
        }
}

/// Builds the uniqueness predicate of an entity. An entity without unique
/// columns gets a predicate with no terms, which the store never runs.
pub fn unique_filter<T: TableItem>(item: &T) -> (r: Predicate)
    ensures
        is_unique_filter(*item, r),
{
    let columns = T::insert_columns();
    let unique = T::unique_columns();
    let values = item.insert_values();
    proof {
        item.lemma_shape();
    }
    let mut terms: Vec<Term> = Vec::new();
    let mut k: usize = 0;
    while k < unique.len()
        invariant
            k <= unique@.len(),
            unique@.len() == T::spec_unique().len(),
            forall|j: int| 0 <= j < unique@.len() ==> unique@[j] as int == T::spec_unique()[j],
            column_names(columns@) == T::spec_columns(),
            cells(values@) == item.spec_row(),
            item.spec_row().len() == T::spec_columns().len(),
            forall|j: int|
                0 <= j < T::spec_unique().len() ==> 0 <= #[trigger] T::spec_unique()[j]
                    < T::spec_columns().len(),
            terms@.len() == k,
            forall|j: int|
                0 <= j < k ==> {
                    &&& (#[trigger] terms@[j]).column@ == T::spec_columns()[T::spec_unique()[j]]
                    &&& terms@[j].value@ == item.spec_row()[T::spec_unique()[j]]
                },
        decreases unique@.len() - k,
    {
        let u = unique[k];
        assert(T::spec_unique()[k as int] == u as int);
        assert(0 <= T::spec_unique()[k as int] < T::spec_columns().len());
        assert(column_names(columns@)[u as int] == columns@[u as int]@);
        assert(cells(values@)[u as int] == values@[u as int]@);
        let term = Term { column: columns[u], value: crate::value::copy_value(&values[u]) };
        terms.push(term);
        k = k + 1;
    }
    Predicate { terms, any: true }
}

/// A collision always matches the uniqueness predicate, so a store that runs
/// the predicate finds every row that the entity collides with.
pub proof fn lemma_collision_matches_filter<T: TableItem>(item: T, p: Predicate, row: Seq<Cell>)
    requires
        is_unique_filter(item, p),
        row.len() == T::spec_columns().len(),
        collides(T::spec_unique(), item.spec_row(), row),
    ensures
        predicate_holds(p, T::spec_columns(), row),
{
    item.lemma_shape();
    let cols = T::spec_columns();
    let uniq = T::spec_unique();
    let a = item.spec_row();
    let k = choose|k: int|
        0 <= k < uniq.len() && a[uniq[k]] != Cell::Null && #[trigger] a[uniq[k]] == row[uniq[k]];
    assert(0 <= uniq[k] < cols.len());
    assert(p.terms@[k].column@ == cols[uniq[k]]);
    assert(crate::value::term_holds(p.terms@[k].column@, p.terms@[k].value@, cols, row));
}

/// Round trip: the row an entity is inserted with, one cell per insert
/// column, reads back as an entity (`TableItem::from_row` succeeds on it), and
/// by the contract of `from_row` what it reads back as has the same cells in
/// every column and the identity the store assigned.
pub proof fn lemma_round_trip<T: TableItem>(item: T)
    ensures
        T::spec_decodable(item.spec_row()),
        item.spec_row().len() == T::spec_columns().len(),
{
    item.lemma_shape();
}

/// No two rows of a table collide on a unique column.
pub open spec fn no_collisions(unique: Seq<int>, rows: Seq<Seq<Cell>>) -> bool {
    forall|i: int, j: int|
        0 <= i < rows.len() && 0 <= j < rows.len() && i != j ==> !collides(
            unique,
            #[trigger] rows[i],
            #[trigger] rows[j],
        )
}

/// Uniqueness is kept: when no row of a table without collisions satisfies an
/// entity's uniqueness predicate, which is when the store lets the insert
/// through, the table with the entity's row added still has no collisions.
pub proof fn lemma_insert_keeps_unique<T: TableItem>(rows: Seq<Seq<Cell>>, item: T, p: Predicate)
    requires
        no_collisions(T::spec_unique(), rows),
        is_unique_filter(item, p),
        forall|i: int| 0 <= i < rows.len() ==> (#[trigger] rows[i]).len() == T::spec_columns().len(),
        forall|i: int| 0 <= i < rows.len() ==> !predicate_holds(p, T::spec_columns(), #[trigger] rows[i]),
    ensures
        no_collisions(T::spec_unique(), rows.push(item.spec_row())),
{
    let uniq = T::spec_unique();
    let a = item.spec_row();
    let all = rows.push(a);
    assert forall|i: int| 0 <= i < rows.len() implies !collides(uniq, a, rows[i]) && !collides(uniq, rows[i], a) by {
        if collides(uniq, a, rows[i]) {
            lemma_collision_matches_filter(item, p, rows[i]);
        }
        if collides(uniq, rows[i], a) {
            let k = choose|k: int|
                0 <= k < uniq.len() && rows[i][uniq[k]] != Cell::Null && #[trigger] rows[i][uniq[k]] == a[uniq[k]];
            assert(a[uniq[k]] != Cell::Null && a[uniq[k]] == rows[i][uniq[k]]);
            assert(collides(uniq, a, rows[i]));
        }
    }
    assert forall|i: int, j: int|
        0 <= i < all.len() && 0 <= j < all.len() && i != j implies !collides(uniq, #[trigger] all[i], #[trigger] all[j]) by {
        if i < rows.len() && j < rows.len() {
            assert(all[i] == rows[i] && all[j] == rows[j]);
        } else if i == rows.len() {
            assert(all[i] == a && all[j] == rows[j]);
        } else {
            assert(all[j] == a && all[i] == rows[i]);
        }
    }
}

} // verus!
