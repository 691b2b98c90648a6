//! Telescopes and observing systems.
use vstd::prelude::*;
use crate::archivist::{Archivist, Statement};
use crate::error::ARPAError;
use crate::table::{Table, TableItem};
use crate::text::{ascii_lower, join3, lower_of, to_ascii_lowercase, to_lowercase};
use crate::value::{Predicate, Term};
use crate::value::{Cell, Value, cells, get_i32, get_text, is_i32_cell};

verus! {

/// A telescope.
#[derive(Debug, Clone)]
pub struct TelescopeId {
    /// Identity assigned by the store; 0 before insertion.
    pub id: i32,
    pub name: String,
    pub abbreviation: String,
    pub code: String,
}

impl TableItem for TelescopeId {
    open spec fn spec_table() -> Table {
        Table::Telescopes
    }

    open spec fn spec_columns() -> Seq<Seq<char>> {
        seq!["name"@, "abbreviation"@, "code"@]
    }

    open spec fn spec_unique() -> Seq<int> {
        seq![0int, 2int]
    }

    open spec fn spec_id(&self) -> i32 {
        self.id
    }

    open spec fn spec_row(&self) -> Seq<Cell> {
        seq![
            Cell::Text(self.name@),
            Cell::Text(self.abbreviation@),
            Cell::Text(self.code@),
        ]
    }

    open spec fn spec_decodable(row: Seq<Cell>) -> bool {
        &&& row.len() == 3
        &&& row[0] is Text
        &&& row[1] is Text
        &&& row[2] is Text
    }

    fn table() -> (r: Table) {
        Table::Telescopes
    }

    fn id(&self) -> (r: i32) {
        self.id
    }

    fn insert_columns() -> (r: Vec<&'static str>) {
        let r = vec!["name", "abbreviation", "code"];
        assert(crate::table::column_names(r@) =~= Self::spec_columns());
        r
    }

    fn unique_columns() -> (r: Vec<usize>) {
        vec![0, 2]
    }

    fn insert_values(&self) -> (r: Vec<Value>) {
        let r = vec![
            Value::Text(self.name.clone()),
            Value::Text(self.abbreviation.clone()),
            Value::Text(self.code.clone()),
        ];
        assert(cells(r@) =~= self.spec_row());
        r
    }

    fn from_row(id: i32, row: &Vec<Value>) -> (r: Option<Self>) {
        if row.len() != 3 {
            return None;
        }
        let name = match get_text(row, 0) {
            Some(v) => v,
            None => return None,
        };
        let abbreviation = match get_text(row, 1) {
            Some(v) => v,
            None => return None,
        };
        let code = match get_text(row, 2) {
            Some(v) => v,
            None => return None,
        };
        let e = TelescopeId { id, name, abbreviation, code };
        assert(e.spec_row() =~= cells(row@));
        Some(e)
    }

    proof fn lemma_shape(&self) {
    }
}


/// An observing system: a telescope with a receiver and a backend.
#[derive(Debug, Clone)]
pub struct ObsSystem {
    /// Identity assigned by the store; 0 before insertion.
    pub id: i32,
    pub name: String,
    pub telescope_id: i32,
    pub frontend: String,
    pub backend: String,
    pub clock: String,
    pub code: String,
}

/// The filter that finds a telescope by name or abbreviation, in lower case.
pub open spec fn is_telescope_filter(p: Predicate, name: Seq<char>) -> bool {
    &&& p.any
    &&& p.terms@.len() == 2
    &&& p.terms@[0].column@ == "name"@
    &&& p.terms@[0].value@ == Cell::Text(lower_of(name))
    &&& p.terms@[1].column@ == "abbreviation"@
    &&& p.terms@[1].value@ == Cell::Text(lower_of(name))
}

/// The filter that finds an observing system by telescope, receiver (in
/// lower case) and backend (in ASCII lower case).
pub open spec fn is_obs_system_filter(p: Predicate, telescope_id: i32, receiver: Seq<char>, backend: Seq<char>) -> bool {
    &&& !p.any
    &&& p.terms@.len() == 3
    &&& p.terms@[0].column@ == "telescope_id"@
    &&& p.terms@[0].value@ == Cell::Int(telescope_id as int)
    &&& p.terms@[1].column@ == "frontend"@
    &&& p.terms@[1].value@ == Cell::Text(lower_of(receiver))
    &&& p.terms@[2].column@ == "backend"@
    &&& p.terms@[2].value@ == Cell::Text(ascii_lower(backend))
}

impl ObsSystem {
    /// The read that finds the telescope of an observing system by name or
    /// abbreviation.
    pub fn telescope_query(name: &str) -> (r: Statement)
        ensures
            r matches Statement::Select { table, filter: Some(f), limit_one, .. } && table == Table::Telescopes
                && is_telescope_filter(f, name@) && limit_one,
    {
        let lower = to_lowercase(name);
        let terms = vec![
            Term { column: "name", value: Value::Text(lower.clone()) },
            Term { column: "abbreviation", value: Value::Text(lower) },
        ];
        Archivist::find::<TelescopeId>(Predicate { terms, any: true })
    }

    /// Given the telescope found by `telescope_query`, the read that finds the
    /// observing system with that telescope, receiver and backend. A missing
    /// telescope is an error.
    pub fn find(telescope: Option<TelescopeId>, name: &str, receiver: &str, backend: &str) -> (r: Result<Statement, ARPAError>)
        ensures
            telescope is None ==> (r matches Err(ARPAError::CantFind(m)) && m@ == "Telescope with name or abbreviation '"@
                + name@ + "'"@),
            telescope matches Some(t) ==> (r matches Ok(Statement::Select { table, filter: Some(f), limit_one, .. })
                && table == Table::ObsSystems && is_obs_system_filter(f, t.id, receiver@, backend@) && limit_one),
    {
        let t = match telescope {
            Some(t) => t,
            None => return Err(ARPAError::CantFind(join3("Telescope with name or abbreviation '", name, "'"))),
        };
        let terms = vec![
            Term { column: "telescope_id", value: Value::Int(t.id as i64) },
            Term { column: "frontend", value: Value::Text(to_lowercase(receiver)) },
            Term { column: "backend", value: Value::Text(to_ascii_lowercase(backend)) },
        ];
        Ok(Archivist::find::<ObsSystem>(Predicate { terms, any: false }))
    }
}

impl TableItem for ObsSystem {
    open spec fn spec_table() -> Table {
        Table::ObsSystems
    }

    open spec fn spec_columns() -> Seq<Seq<char>> {
        seq!["name"@, "telescope_id"@, "frontend"@, "backend"@, "clock"@, "code"@]
    }

    open spec fn spec_unique() -> Seq<int> {
        seq![0int]
    }

    open spec fn spec_id(&self) -> i32 {
        self.id
    }

    open spec fn spec_row(&self) -> Seq<Cell> {
        seq![
            Cell::Text(self.name@),
            Cell::Int(self.telescope_id as int),
            Cell::Text(self.frontend@),
            Cell::Text(self.backend@),
            Cell::Text(self.clock@),
            Cell::Text(self.code@),
        ]
    }

    open spec fn spec_decodable(row: Seq<Cell>) -> bool {
        &&& row.len() == 6
        &&& row[0] is Text
        &&& is_i32_cell(row[1])
        &&& row[2] is Text
        &&& row[3] is Text
        &&& row[4] is Text
        &&& row[5] is Text
    }

    fn table() -> (r: Table) {
        Table::ObsSystems
    }

    fn id(&self) -> (r: i32) {
        self.id
    }

    fn insert_columns() -> (r: Vec<&'static str>) {
        let r = vec!["name", "telescope_id", "frontend", "backend", "clock", "code"];
        assert(crate::table::column_names(r@) =~= Self::spec_columns());
        r
    }

    fn unique_columns() -> (r: Vec<usize>) {
        vec![0]
    }

    fn insert_values(&self) -> (r: Vec<Value>) {
        let r = vec![
            Value::Text(self.name.clone()),
            Value::Int(self.telescope_id as i64),
            Value::Text(self.frontend.clone()),
            Value::Text(self.backend.clone()),
            Value::Text(self.clock.clone()),
            Value::Text(self.code.clone()),
        ];
        assert(cells(r@) =~= self.spec_row());
        r
    }

    fn from_row(id: i32, row: &Vec<Value>) -> (r: Option<Self>) {
        if row.len() != 6 {
            return None;
        }
        let name = match get_text(row, 0) {
            Some(v) => v,
            None => return None,
        };
        let telescope_id = match get_i32(row, 1) {
            Some(v) => v,
            None => return None,
        };
        let frontend = match get_text(row, 2) {
            Some(v) => v,
            None => return None,
        };
        let backend = match get_text(row, 3) {
            Some(v) => v,
            None => return None,
        };
        let clock = match get_text(row, 4) {
            Some(v) => v,
            None => return None,
        };
        let code = match get_text(row, 5) {
            Some(v) => v,
            None => return None,
        };
        let e = ObsSystem { id, name, telescope_id, frontend, backend, clock, code };
        assert(e.spec_row() =~= cells(row@));
        Some(e)
    }

    proof fn lemma_shape(&self) {
    }
}

} // verus!
