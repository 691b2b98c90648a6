//! The store session: the single gateway to persisted state.
//!
//! The session decides; the program around it runs the statements it hands
//! out on the database and reports back what the database answered. Reads go
//! to the shared connection pool, writes to the one live transaction, so that
//! reads never observe the session's own uncommitted writes.
use vstd::prelude::*;
use crate::config::Config;
use crate::error::ArchivistError;
use crate::table::{Table, TableItem, is_unique_filter, unique_filter};
use crate::value::{cells, copy_value, Cell, Predicate, Term, Value};

verus! {

/// A statement for the database, with its values bound as parameters.
#[derive(Debug)]
pub enum Statement {
    /// Whether a row with the identity exists (a read).
    IdExists { table: Table, id: i32 },
    /// The identity of one row that satisfies the filter (a read).
    FindId { table: Table, filter: Predicate },
    /// The listed columns of the rows that satisfy the filter, of all rows
    /// when there is none, at most one row when `limit_one` holds (a read).
    Select { table: Table, columns: Vec<&'static str>, filter: Option<Predicate>, limit_one: bool },
    /// Inserts one row and returns its new identity (a write).
    Insert { table: Table, columns: Vec<&'static str>, values: Vec<Value> },
    /// Sets the assigned columns of the row with the identity (a write).
    Update { table: Table, id: i32, assignments: Vec<Term> },
    /// Deletes the row with the identity (a write).
    Delete { table: Table, id: i32 },
}

impl Statement {
    /// Whether the statement changes the store, and so must run inside the
    /// live transaction.
    pub open spec fn spec_is_write(&self) -> bool {
        self is Insert || self is Update || self is Delete
    }

    pub fn is_write(&self) -> (r: bool)
        ensures
            r == self.spec_is_write(),
    {
        match self {
            Statement::Insert { .. } | Statement::Update { .. } | Statement::Delete { .. } => true,
            _ => false,
        }
    }
}

/// The model of a session: whether a transaction is live, the writes sent in
/// it so far, and the writes of all committed transactions.
pub ghost struct StoreModel {
    pub live: bool,
    pub pending: Seq<Statement>,
    pub committed: Seq<Statement>,
}

/// A transaction starts with no writes.
pub open spec fn started(m: StoreModel) -> StoreModel {
    StoreModel { live: true, pending: Seq::empty(), committed: m.committed }
}

/// Committing makes the pending writes permanent.
pub open spec fn committed(m: StoreModel) -> StoreModel {
    StoreModel { live: false, pending: Seq::empty(), committed: m.committed + m.pending }
}

/// Rolling back, explicitly or by abandoning the transaction, drops the
/// pending writes.
pub open spec fn rolled_back(m: StoreModel) -> StoreModel {
    StoreModel { live: false, pending: Seq::empty(), committed: m.committed }
}

/// A write joins the live transaction, which is started first if there is none.
pub open spec fn written(m: StoreModel, s: Statement) -> StoreModel {
    let t = if m.live { m } else { started(m) };
    StoreModel { live: true, pending: t.pending.push(s), committed: t.committed }
}

/// A sequence of writes, one after the other.
pub open spec fn written_all(m: StoreModel, ws: Seq<Statement>) -> StoreModel
    decreases ws.len(),
{
    if ws.len() == 0 {
        m
    } else {
        written(written_all(m, ws.drop_last()), ws.last())
    }
}

/// The session with the store.
pub struct Archivist {
    config: Config,
    live: bool,
    pending: Ghost<Seq<Statement>>,
    committed: Ghost<Seq<Statement>>,
}

impl View for Archivist {
    type V = StoreModel;

    closed spec fn view(&self) -> StoreModel {
        StoreModel { live: self.live, pending: self.pending@, committed: self.committed@ }
    }
}

/// The statement that inserts an entity.
pub open spec fn is_insert_of<T: TableItem>(s: Statement, item: T) -> bool {
    s matches Statement::Insert { table, columns, values } && table == T::spec_table()
        && crate::table::column_names(columns@) == T::spec_columns() && cells(values@)
        == item.spec_row()
}

/// The comparison of the identity column with a value.
pub open spec fn is_id_filter(p: Predicate, id: i32) -> bool {
    &&& !p.any
    &&& p.terms@.len() == 1
    &&& p.terms@[0].column@ == "id"@
    &&& p.terms@[0].value@ == Cell::Int(id as int)
}

fn id_filter(id: i32) -> (r: Predicate)
    ensures
        is_id_filter(r, id),
{
    let terms = vec![Term { column: "id", value: Value::Int(id as i64) }];
    Predicate { terms, any: false }
}

/// The select list of an entity: its identity, then its insert columns.
fn select_columns<T: TableItem>() -> (r: Vec<&'static str>)
    ensures
        crate::table::column_names(r@) == seq!["id"@] + T::spec_columns(),
{
    let columns = T::insert_columns();
    let mut r = vec!["id"];
    let mut k: usize = 0;
    while k < columns.len()
        invariant
            k <= columns@.len(),
            r@ == seq!["id"] + columns@.subrange(0, k as int),
        decreases columns@.len() - k,
    {
        r.push(columns[k]);
        k = k + 1;
        assert(r@ =~= seq!["id"] + columns@.subrange(0, k as int));
    }
    assert(r@ =~= seq!["id"] + columns@);
    assert(crate::table::column_names(r@) =~= seq!["id"@] + crate::table::column_names(columns@));
    r
}

impl Archivist {
    /// A session with no live transaction.
    pub fn new(config: Config) -> (r: Self)
        ensures
            !r@.live,
            r@.pending.len() == 0,
            r@.committed.len() == 0,
    {
        Archivist { config, live: false, pending: Ghost(Seq::empty()), committed: Ghost(Seq::empty()) }
    }

    /// The configuration.
    pub fn config(&self) -> &Config {
        &self.config
    }

    /// Whether a transaction is live.
    pub fn is_live(&self) -> (r: bool)
        ensures
            r == self@.live,
    {
        self.live
    }

    /// Starts a transaction; fails if one is live already.
    pub fn start_transaction(&mut self) -> (r: Result<(), ArchivistError>)
        ensures
            old(self)@.live ==> (r matches Err(ArchivistError::TransactionAlreadyLive) && final(self)@
                == old(self)@),
            !old(self)@.live ==> r is Ok && final(self)@ == started(old(self)@),
    {
        if self.live {
            return Err(ArchivistError::TransactionAlreadyLive);
        }
        self.live = true;
        self.pending = Ghost(Seq::empty());
        Ok(())
    }

    /// Commits the live transaction; fails if there is none.
    pub fn commit_transaction(&mut self) -> (r: Result<(), ArchivistError>)
        ensures
            !old(self)@.live ==> (r matches Err(ArchivistError::NoTransactionToCommit) && final(self)@
                == old(self)@),
            old(self)@.live ==> r is Ok && final(self)@ == committed(old(self)@),
    {
        if !self.live {
            return Err(ArchivistError::NoTransactionToCommit);
        }
        self.live = false;
        self.committed = Ghost(self.committed@ + self.pending@);
        self.pending = Ghost(Seq::empty());
        Ok(())
    }

    /// Rolls the live transaction back; fails if there is none.
    pub fn rollback_transaction(&mut self) -> (r: Result<(), ArchivistError>)
        ensures
            !old(self)@.live ==> (r matches Err(ArchivistError::NoTransactionToRollback)
                && final(self)@ == old(self)@),
            old(self)@.live ==> r is Ok && final(self)@ == rolled_back(old(self)@),
    {
        if !self.live {
            return Err(ArchivistError::NoTransactionToRollback);
        }
        self.abandon_transaction();
        Ok(())
    }

    /// Abandons the live transaction, if any, without committing it: the
    /// database rolls it back when it goes out of scope.
    pub fn abandon_transaction(&mut self)
        ensures
            final(self)@ == rolled_back(old(self)@),
    {
        self.live = false;
        self.pending = Ghost(Seq::empty());
    }

    /// The read that tells whether a row with the identity exists.
    pub fn id_exists(table: Table, id: i32) -> (r: Statement)
        ensures
            r == (Statement::IdExists { table, id }),
    {
        Statement::IdExists { table, id }
    }

    /// Turns the answer to `id_exists` into a result.
    pub fn assert_id(table: Table, id: i32, exists: bool) -> (r: Result<(), ArchivistError>)
        ensures
            exists <==> r is Ok,
            !exists ==> (r matches Err(ArchivistError::MissingID(t, i)) && t == table && i == id),
    {
        if exists {
            Ok(())
        } else {
            Err(ArchivistError::MissingID(table, id))
        }
    }

    /// The read that finds a row the entity would collide with; `None` for an
    /// entity type without unique columns, which never collides.
    pub fn unique_query<T: TableItem>(item: &T) -> (r: Option<Statement>)
        ensures
            T::spec_unique().len() == 0 <==> r is None,
            r matches Some(s) ==> (s matches Statement::FindId { table, filter } && table
                == T::spec_table() && is_unique_filter(*item, filter)),
    {
        let unique = T::unique_columns();
        if unique.len() == 0 {
            None
        } else {
            Some(Statement::FindId { table: T::table(), filter: unique_filter(item) })
        }
    }

    /// Turns the answer to `unique_query` (the identity of a colliding row, if
    /// one was found) into a result.
    pub fn assert_unique<T: TableItem>(item: &T, found: Option<i32>) -> (r: Result<(), ArchivistError>)
        ensures
            found is None <==> r is Ok,
            found matches Some(k) ==> (r matches Err(ArchivistError::EntryAlreadyExists(v, t, i))
                && cells(v@) == item.spec_row() && t == T::spec_table() && i == k),
    {
        match found {
            Some(k) => Err(ArchivistError::EntryAlreadyExists(item.insert_values(), T::table(), k)),
            None => Ok(()),
        }
    }

    /// Inserts an entity, given the answer to its `unique_query` (`None` when
    /// there was no query). A collision is refused; otherwise the insert joins
    /// the live transaction, which is started first if there is none. The
    /// database answers the insert with the new identity.
    pub fn insert<T: TableItem>(&mut self, item: &T, found: Option<i32>) -> (r: Result<Statement, ArchivistError>)
        ensures
            found matches Some(k) ==> (r matches Err(ArchivistError::EntryAlreadyExists(v, t, i))
                && cells(v@) == item.spec_row() && t == T::spec_table() && i == k && final(self)@
                == old(self)@),
            found is None ==> (r matches Ok(s) && is_insert_of(s, *item)
                && final(self)@ == written(old(self)@, s)),
    {
        match Self::assert_unique(item, found) {
            Err(e) => Err(e),
            Ok(()) => {
                let s = Statement::Insert {
                    table: T::table(),
                    columns: T::insert_columns(),
                    values: item.insert_values(),
                };
                self.record_write(&s);
                Ok(s)
            },
        }
    }

    /// Notes a write in the model, starting a transaction if none is live.
    /// Returns whether one was started implicitly.
    fn record_write(&mut self, s: &Statement) -> (implicit: bool)
        ensures
            implicit == !old(self)@.live,
            final(self)@ == written(old(self)@, *s),
    {
        let implicit = !self.live;
        if implicit {
            self.live = true;
            self.pending = Ghost(Seq::empty());
        }
        self.pending = Ghost(self.pending@.push(*s));
        implicit
    }

    /// The read of all rows of an entity type.
    pub fn get_all<T: TableItem>() -> (r: Statement)
        ensures
            r matches Statement::Select { table, columns, filter, limit_one } && table
                == T::spec_table() && crate::table::column_names(columns@) == seq!["id"@]
                + T::spec_columns() && filter is None && !limit_one,
    {
        Statement::Select { table: T::table(), columns: select_columns::<T>(), filter: None, limit_one: false }
    }

    /// The read of one row of an entity type that satisfies a filter.
    pub fn find<T: TableItem>(filter: Predicate) -> (r: Statement)
        ensures
            r matches Statement::Select { table, columns, filter: Some(f), limit_one } && table
                == T::spec_table() && crate::table::column_names(columns@) == seq!["id"@]
                + T::spec_columns() && f == filter && limit_one,
    {
        Statement::Select {
            table: T::table(),
            columns: select_columns::<T>(),
            filter: Some(filter),
            limit_one: true,
        }
    }

    /// The read of the row with an identity, given the answer to `id_exists`.
    pub fn get<T: TableItem>(id: i32, exists: bool) -> (r: Result<Statement, ArchivistError>)
        ensures
            !exists ==> (r matches Err(ArchivistError::MissingID(t, i)) && t == T::spec_table() && i
                == id),
            exists ==> (r matches Ok(Statement::Select { table, columns, filter: Some(f), limit_one })
                && table == T::spec_table() && crate::table::column_names(columns@) == seq!["id"@]
                + T::spec_columns() && is_id_filter(f, id) && limit_one),
    {
        match Self::assert_id(T::table(), id, exists) {
            Err(e) => Err(e),
            Ok(()) => Ok(Statement::Select {
                table: T::table(),
                columns: select_columns::<T>(),
                filter: Some(id_filter(id)),
                limit_one: true,
            }),
        }
    }

    /// Reads an entity from the row the database returned for it.
    pub fn decode<T: TableItem>(id: i32, row: &Vec<Value>) -> (r: Result<T, ArchivistError>)
        ensures
            r is Ok <==> T::spec_decodable(cells(row@)),
            r matches Ok(e) ==> e.spec_id() == id && e.spec_row() == cells(row@),
            r matches Err(e) ==> e matches ArchivistError::MalformedRow(t, i) && t == T::spec_table()
                && i == id,
    {
        match T::from_row(id, row) {
            Some(e) => Ok(e),
            None => Err(ArchivistError::MalformedRow(T::table(), id)),
        }
    }

    /// The read of the listed columns of one row of a table that satisfies a filter.
    pub fn get_special(table: Table, columns: Vec<&'static str>, filter: Predicate) -> (r: Statement)
        ensures
            r matches Statement::Select { table: t, columns: c, filter: Some(f), limit_one } && t
                == table && c@ == columns@ && f == filter && limit_one,
    {
        Statement::Select { table, columns, filter: Some(filter), limit_one: true }
    }

    /// Sets columns of the row with an identity, given the answer to `id_exists`.
    pub fn update(&mut self, table: Table, id: i32, exists: bool, assignments: Vec<Term>) -> (r: Result<Statement, ArchivistError>)
        ensures
            !exists ==> (r matches Err(ArchivistError::MissingID(t, i)) && t == table && i == id
                && final(self)@ == old(self)@),
            exists ==> (r matches Ok(s) && s == (Statement::Update { table, id, assignments })
                && final(self)@ == written(old(self)@, s)),
    {
        match Self::assert_id(table, id, exists) {
            Err(e) => Err(e),
            Ok(()) => {
                let s = Statement::Update { table, id, assignments };
                self.record_write(&s);
                Ok(s)
            },
        }
    }

    /// Sets every column of the row with an identity to the entity's values,
    /// given the answer to `id_exists`.
    pub fn update_from_cache<T: TableItem>(&mut self, item: &T, id: i32, exists: bool) -> (r: Result<Statement, ArchivistError>)
        ensures
            !exists ==> (r matches Err(ArchivistError::MissingID(t, i)) && t == T::spec_table() && i
                == id && final(self)@ == old(self)@),
            exists ==> (r matches Ok(s) && s matches Statement::Update { table, id: i, assignments }
                && table == T::spec_table() && i == id && assignments@.len()
                == T::spec_columns().len() && (forall|k: int|
                0 <= k < assignments@.len() ==> (#[trigger] assignments@[k]).column@
                    == T::spec_columns()[k] && assignments@[k].value@ == item.spec_row()[k])
                && final(self)@ == written(old(self)@, s)),
    {
        if let Err(e) = Self::assert_id(T::table(), id, exists) {
            return Err(e);
        }
        let columns = T::insert_columns();
        let values = item.insert_values();
        proof {
            item.lemma_shape();
        }
        let mut assignments: Vec<Term> = Vec::new();
        let mut k: usize = 0;
        while k < columns.len()
            invariant
                k <= columns@.len(),
                crate::table::column_names(columns@) == T::spec_columns(),
                cells(values@) == item.spec_row(),
                item.spec_row().len() == T::spec_columns().len(),
                assignments@.len() == k,
                forall|j: int|
                    0 <= j < k ==> (#[trigger] assignments@[j]).column@ == T::spec_columns()[j]
                        && assignments@[j].value@ == item.spec_row()[j],
            decreases columns@.len() - k,
        {
            assert(crate::table::column_names(columns@)[k as int] == columns@[k as int]@);
            assert(cells(values@)[k as int] == values@[k as int]@);
            assignments.push(Term { column: columns[k], value: copy_value(&values[k]) });
            k = k + 1;
        }
        let s = Statement::Update { table: T::table(), id, assignments };
        self.record_write(&s);
        Ok(s)
    }

    /// Deletes the row with an identity, given the answer to `id_exists`.
    /// Deleting a missing row is no error and sends nothing.
    pub fn delete<T: TableItem>(&mut self, id: i32, exists: bool) -> (r: Option<Statement>)
        ensures
            !exists ==> r is None && final(self)@ == old(self)@,
            exists ==> (r matches Some(s) && s == (Statement::Delete { table: T::spec_table(), id })
                && final(self)@ == written(old(self)@, s)),
    {
        if !exists {
            return None;
        }
        let s = Statement::Delete { table: T::table(), id };
        self.record_write(&s);
        Some(s)
    }
}

/// Abandoning a transaction leaves no trace: after any writes in it the
/// committed state is as before, no writes are pending, and a fresh
/// transaction can start.
pub proof fn lemma_abandon_leaves_no_trace(m: StoreModel, ws: Seq<Statement>)
    requires
        !m.live,
    ensures
        !rolled_back(written_all(started(m), ws)).live,
        rolled_back(written_all(started(m), ws)).committed == m.committed,
        rolled_back(written_all(started(m), ws)).pending.len() == 0,
        started(rolled_back(written_all(started(m), ws))).committed == m.committed,
{
    lemma_writes_keep_committed(started(m), ws);
}

/// Writes in a live transaction never change the committed state.
pub proof fn lemma_writes_keep_committed(m: StoreModel, ws: Seq<Statement>)
    requires
        m.live,
    ensures
        written_all(m, ws).committed == m.committed,
        written_all(m, ws).live,
    decreases ws.len(),
{
    if ws.len() > 0 {
        lemma_writes_keep_committed(m, ws.drop_last());
    }
}

} // verus!
