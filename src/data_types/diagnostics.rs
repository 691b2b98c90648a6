//! Diagnostic results.
use vstd::prelude::*;
use crate::table::{Table, TableItem};
use crate::value::{Cell, Value, cells, get_i32, get_real, get_text, is_i32_cell};

verus! {

/// A diagnostic result that is a number.
#[derive(Debug, Clone)]
pub struct DiagnosticFloat {
    /// Identity assigned by the store; 0 before insertion.
    pub id: i32,
    /// The run that produced the result.
    pub process: i32,
    /// The diagnostic name.
    pub diagnostic: String,
    /// The value, as the bit pattern of a single-precision number.
    pub result: u32,
}

impl TableItem for DiagnosticFloat {
    open spec fn spec_table() -> Table {
        Table::DiagnosticFloats
    }

    open spec fn spec_columns() -> Seq<Seq<char>> {
        seq!["process"@, "diagnostic"@, "result"@]
    }

    open spec fn spec_unique() -> Seq<int> {
        seq![]
    }

    open spec fn spec_id(&self) -> i32 {
        self.id
    }

    open spec fn spec_row(&self) -> Seq<Cell> {
        seq![
            Cell::Int(self.process as int),
            Cell::Text(self.diagnostic@),
            Cell::Real(self.result),
        ]
    }

    open spec fn spec_decodable(row: Seq<Cell>) -> bool {
        &&& row.len() == 3
        &&& is_i32_cell(row[0])
        &&& row[1] is Text
        &&& row[2] is Real
    }

    fn table() -> (r: Table) {
        Table::DiagnosticFloats
    }

    fn id(&self) -> (r: i32) {
        self.id
    }

    fn insert_columns() -> (r: Vec<&'static str>) {
        let r = vec!["process", "diagnostic", "result"];
        assert(crate::table::column_names(r@) =~= Self::spec_columns());
        r
    }

    fn unique_columns() -> (r: Vec<usize>) {
        vec![]
    }

    fn insert_values(&self) -> (r: Vec<Value>) {
        let r = vec![
            Value::Int(self.process as i64),
            Value::Text(self.diagnostic.clone()),
            Value::Real(self.result),
        ];
        assert(cells(r@) =~= self.spec_row());
        r
    }

    fn from_row(id: i32, row: &Vec<Value>) -> (r: Option<Self>) {
        if row.len() != 3 {
            return None;
        }
        let process = match get_i32(row, 0) {
            Some(v) => v,
            None => return None,
        };
        let diagnostic = match get_text(row, 1) {
            Some(v) => v,
            None => return None,
        };
        let result = match get_real(row, 2) {
            Some(v) => v,
            None => return None,
        };
        let e = DiagnosticFloat { id, process, diagnostic, result };
        assert(e.spec_row() =~= cells(row@));
        Some(e)
    }

    proof fn lemma_shape(&self) {
    }
}


/// A diagnostic result that is a plot.
#[derive(Debug, Clone)]
pub struct DiagnosticPlot {
    /// Identity assigned by the store; 0 before insertion.
    pub id: i32,
    /// The run that produced the plot.
    pub process: i32,
    /// The diagnostic name.
    pub diagnostic: String,
    /// The path to the plot.
    pub filepath: String,
}

impl TableItem for DiagnosticPlot {
    open spec fn spec_table() -> Table {
        Table::DiagnosticPlots
    }

    open spec fn spec_columns() -> Seq<Seq<char>> {
        seq!["process"@, "diagnostic"@, "filepath"@]
    }

    open spec fn spec_unique() -> Seq<int> {
        seq![]
    }

    open spec fn spec_id(&self) -> i32 {
        self.id
    }

    open spec fn spec_row(&self) -> Seq<Cell> {
        seq![
            Cell::Int(self.process as int),
            Cell::Text(self.diagnostic@),
            Cell::Text(self.filepath@),
        ]
    }

    open spec fn spec_decodable(row: Seq<Cell>) -> bool {
        &&& row.len() == 3
        &&& is_i32_cell(row[0])
        &&& row[1] is Text
        &&& row[2] is Text
    }

    fn table() -> (r: Table) {
        Table::DiagnosticPlots
    }

    fn id(&self) -> (r: i32) {
        self.id
    }

    fn insert_columns() -> (r: Vec<&'static str>) {
        let r = vec!["process", "diagnostic", "filepath"];
        assert(crate::table::column_names(r@) =~= Self::spec_columns());
        r
    }

    fn unique_columns() -> (r: Vec<usize>) {
        vec![]
    }

    fn insert_values(&self) -> (r: Vec<Value>) {
        let r = vec![
            Value::Int(self.process as i64),
            Value::Text(self.diagnostic.clone()),
            Value::Text(self.filepath.clone()),
        ];
        assert(cells(r@) =~= self.spec_row());
        r
    }

    fn from_row(id: i32, row: &Vec<Value>) -> (r: Option<Self>) {
        if row.len() != 3 {
            return None;
        }
        let process = match get_i32(row, 0) {
            Some(v) => v,
            None => return None,
        };
        let diagnostic = match get_text(row, 1) {
            Some(v) => v,
            None => return None,
        };
        let filepath = match get_text(row, 2) {
            Some(v) => v,
            None => return None,
        };
        let e = DiagnosticPlot { id, process, diagnostic, filepath };
        assert(e.spec_row() =~= cells(row@));
        Some(e)
    }

    proof fn lemma_shape(&self) {
    }
}

} // verus!
