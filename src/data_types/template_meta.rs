//! Metadata of a template profile file.
use vstd::prelude::*;
use crate::table::{Table, TableItem};
use crate::value::{Cell, Value, cells, get_checksum, get_i32, get_text, is_i32_cell};

verus! {

/// The metadata of a template profile file.
#[derive(Debug, Clone)]
pub struct TemplateMeta {
    /// Identity assigned by the store; 0 before insertion.
    pub id: i32,
    /// The pulsar the template belongs to.
    pub pulsar_id: i32,
    /// The path to the file. Unique.
    pub file_path: String,
    /// The 128-bit content checksum of the file. Unique.
    pub checksum: u128,
}

impl TemplateMeta {
    /// A not yet persisted record of a file whose content checksum is known.
    pub fn new(file_path: String, pulsar_id: i32, checksum: u128) -> (r: Self)
        ensures
            r.id == 0,
            r.pulsar_id == pulsar_id,
            r.checksum == checksum,
            r.file_path@ == file_path@,
    {
        TemplateMeta { id: 0, pulsar_id, file_path, checksum }
    }
}

impl TableItem for TemplateMeta {
    open spec fn spec_table() -> Table {
        Table::TemplateMetas
    }

    open spec fn spec_columns() -> Seq<Seq<char>> {
        seq!["pulsar_id"@, "file_path"@, "checksum"@]
    }

    open spec fn spec_unique() -> Seq<int> {
        seq![1int, 2int]
    }

    open spec fn spec_id(&self) -> i32 {
        self.id
    }

    open spec fn spec_row(&self) -> Seq<Cell> {
        seq![
            Cell::Int(self.pulsar_id as int),
            Cell::Text(self.file_path@),
            Cell::Checksum(self.checksum),
        ]
    }

    open spec fn spec_decodable(row: Seq<Cell>) -> bool {
        &&& row.len() == 3
        &&& is_i32_cell(row[0])
        &&& row[1] is Text
        &&& row[2] is Checksum
    }

    fn table() -> (r: Table) {
        Table::TemplateMetas
    }

    fn id(&self) -> (r: i32) {
        self.id
    }

    fn insert_columns() -> (r: Vec<&'static str>) {
        let r = vec!["pulsar_id", "file_path", "checksum"];
        assert(crate::table::column_names(r@) =~= Self::spec_columns());
        r
    }

    fn unique_columns() -> (r: Vec<usize>) {
        vec![1, 2]
    }

    fn insert_values(&self) -> (r: Vec<Value>) {
        let r = vec![
            Value::Int(self.pulsar_id as i64),
            Value::Text(self.file_path.clone()),
            Value::Checksum(self.checksum),
        ];
        assert(cells(r@) =~= self.spec_row());
        r
    }

    fn from_row(id: i32, row: &Vec<Value>) -> (r: Option<Self>) {
        if row.len() != 3 {
            return None;
        }
        let pulsar_id = match get_i32(row, 0) {
            Some(v) => v,
            None => return None,
        };
        let file_path = match get_text(row, 1) {
            Some(v) => v,
            None => return None,
        };
        let checksum = match get_checksum(row, 2) {
            Some(v) => v,
            None => return None,
        };
        let e = TemplateMeta { id, pulsar_id, file_path, checksum };
        assert(e.spec_row() =~= cells(row@));
        Some(e)
    }

    proof fn lemma_shape(&self) {
    }
}

} // verus!
