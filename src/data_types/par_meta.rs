//! Metadata of a timing model (ephemeris) file.
use vstd::prelude::*;
use crate::table::{Table, TableItem};
use crate::value::{cells, get_checksum, get_i32, get_text, is_i32_cell, Cell, Value};

verus! {

/// The metadata of a timing model file.
#[derive(Debug, Clone)]
pub struct ParMeta {
    /// Identity assigned by the store; 0 before insertion.
    pub id: i32,
    /// The pulsar this model belongs to.
    pub pulsar_id: i32,
    /// The 128-bit content checksum of the file. Unique.
    pub checksum: u128,
    /// The path to the file. Unique.
    pub file_path: String,
}

impl ParMeta {
    /// A not yet persisted record of a file whose content checksum is known.
    pub fn new(file_path: String, pulsar_id: i32, checksum: u128) -> (r: Self)
        ensures
            r.id == 0,
            r.pulsar_id == pulsar_id,
            r.checksum == checksum,
            r.file_path@ == file_path@,
    {
        ParMeta { id: 0, pulsar_id, checksum, file_path }
    }
}

impl TableItem for ParMeta {
    open spec fn spec_table() -> Table {
        Table::ParMetas
    }

    open spec fn spec_columns() -> Seq<Seq<char>> {
        seq!["pulsar_id"@, "checksum"@, "file_path"@]
    }

    open spec fn spec_unique() -> Seq<int> {
        seq![1int, 2int]
    }

    open spec fn spec_id(&self) -> i32 {
        self.id
    }

    open spec fn spec_row(&self) -> Seq<Cell> {
        seq![Cell::Int(self.pulsar_id as int), Cell::Checksum(self.checksum), Cell::Text(self.file_path@)]
    }

    open spec fn spec_decodable(row: Seq<Cell>) -> bool {
        row.len() == 3 && is_i32_cell(row[0]) && row[1] is Checksum && row[2] is Text
    }

    fn table() -> (r: Table) {
        Table::ParMetas
    }

    fn id(&self) -> (r: i32) {
        self.id
    }

    fn insert_columns() -> (r: Vec<&'static str>) {
        let r = vec!["pulsar_id", "checksum", "file_path"];
        assert(crate::table::column_names(r@) =~= Self::spec_columns());
        r
    }

    fn unique_columns() -> (r: Vec<usize>) {
        vec![1, 2]
    }

    fn insert_values(&self) -> (r: Vec<Value>) {
        let r = vec![
            Value::Int(self.pulsar_id as i64),
            Value::Checksum(self.checksum),
            Value::Text(self.file_path.clone()),
        ];
        assert(cells(r@) =~= self.spec_row());
        r
    }

    fn from_row(id: i32, row: &Vec<Value>) -> (r: Option<Self>) {
        if row.len() != 3 {
            return None;
        }
        let pulsar_id = match get_i32(row, 0) {
            Some(v) => v,
            None => return None,
        };
        let checksum = match get_checksum(row, 1) {
            Some(v) => v,
            None => return None,
        };
        let file_path = match get_text(row, 2) {
            Some(v) => v,
            None => return None,
        };
        let e = ParMeta { id, pulsar_id, checksum, file_path };
        assert(e.spec_row() =~= cells(row@));
        Some(e)
    }

    proof fn lemma_shape(&self) {
    }
}

} // verus!
