//! Records of pipeline runs.
use vstd::prelude::*;
use crate::data_types::{ParMeta, RawMeta, TemplateMeta};
use crate::table::{Table, TableItem};
use crate::value::{Cell, Value, cells, get_i16, get_i32, get_opt_i32, get_text, is_i16_cell, is_i32_cell, is_opt_i32_cell, opt_int, opt_int_cell};

verus! {

/// The record of one pipeline run.
#[derive(Debug, Clone)]
pub struct ProcessInfo {
    /// Identity assigned by the store; 0 before insertion.
    pub id: i32,
    /// The raw file processed.
    pub raw_id: i32,
    /// The timing model installed, if any.
    pub par_id: Option<i32>,
    /// The template used.
    pub template_id: i32,
    /// The number of frequency channels.
    pub n_channels: i16,
    /// The number of subintegrations.
    pub n_subints: i16,
    /// The fitting method.
    pub method: String,
    /// The user that started the run.
    pub user_id: i32,
}

impl ProcessInfo {
    /// The not yet persisted record of a run on a raw file, with an optional
    /// timing model and a template.
    pub fn new(
        user_id: i32,
        raw: &RawMeta,
        ephemeride: Option<&ParMeta>,
        template: &TemplateMeta,
        n_channels: i16,
        n_subints: i16,
        method: &str,
    ) -> (r: Self)
        ensures
            r.id == 0,
            r.raw_id == raw.id,
            r.par_id == (match ephemeride {
                Some(e) => Some(e.id),
                None => None::<i32>,
            }),
            r.template_id == template.id,
            r.n_channels == n_channels,
            r.n_subints == n_subints,
            r.method@ == method@,
            r.user_id == user_id,
    {
        let par_id = match ephemeride {
            Some(e) => Some(e.id),
            None => None,
        };
        ProcessInfo {
            id: 0,
            raw_id: raw.id,
            par_id,
            template_id: template.id,
            n_channels,
            n_subints,
            method: String::from_str(method),
            user_id,
        }
    }
}

impl TableItem for ProcessInfo {
    open spec fn spec_table() -> Table {
        Table::ProcessMetas
    }

    open spec fn spec_columns() -> Seq<Seq<char>> {
        seq!["raw_id"@, "par_id"@, "template_id"@, "n_channels"@, "n_subints"@, "method"@, "user_id"@]
    }

    open spec fn spec_unique() -> Seq<int> {
        seq![]
    }

    open spec fn spec_id(&self) -> i32 {
        self.id
    }

    open spec fn spec_row(&self) -> Seq<Cell> {
        seq![
            Cell::Int(self.raw_id as int),
            opt_int_cell(self.par_id),
            Cell::Int(self.template_id as int),
            Cell::Int(self.n_channels as int),
            Cell::Int(self.n_subints as int),
            Cell::Text(self.method@),
            Cell::Int(self.user_id as int),
        ]
    }

    open spec fn spec_decodable(row: Seq<Cell>) -> bool {
        &&& row.len() == 7
        &&& is_i32_cell(row[0])
        &&& is_opt_i32_cell(row[1])
        &&& is_i32_cell(row[2])
        &&& is_i16_cell(row[3])
        &&& is_i16_cell(row[4])
        &&& row[5] is Text
        &&& is_i32_cell(row[6])
    }

    fn table() -> (r: Table) {
        Table::ProcessMetas
    }

    fn id(&self) -> (r: i32) {
        self.id
    }

    fn insert_columns() -> (r: Vec<&'static str>) {
        let r = vec!["raw_id", "par_id", "template_id", "n_channels", "n_subints", "method", "user_id"];
        assert(crate::table::column_names(r@) =~= Self::spec_columns());
        r
    }

    fn unique_columns() -> (r: Vec<usize>) {
        vec![]
    }

    fn insert_values(&self) -> (r: Vec<Value>) {
        let r = vec![
            Value::Int(self.raw_id as i64),
            opt_int(self.par_id),
            Value::Int(self.template_id as i64),
            Value::Int(self.n_channels as i64),
            Value::Int(self.n_subints as i64),
            Value::Text(self.method.clone()),
            Value::Int(self.user_id as i64),
        ];
        assert(cells(r@) =~= self.spec_row());
        r
    }

    fn from_row(id: i32, row: &Vec<Value>) -> (r: Option<Self>) {
        if row.len() != 7 {
            return None;
        }
        let raw_id = match get_i32(row, 0) {
            Some(v) => v,
            None => return None,
        };
        let par_id = match get_opt_i32(row, 1) {
            Some(v) => v,
            None => return None,
        };
        let template_id = match get_i32(row, 2) {
            Some(v) => v,
            None => return None,
        };
        let n_channels = match get_i16(row, 3) {
            Some(v) => v,
            None => return None,
        };
        let n_subints = match get_i16(row, 4) {
            Some(v) => v,
            None => return None,
        };
        let method = match get_text(row, 5) {
            Some(v) => v,
            None => return None,
        };
        let user_id = match get_i32(row, 6) {
            Some(v) => v,
            None => return None,
        };
        let e = ProcessInfo { id, raw_id, par_id, template_id, n_channels, n_subints, method, user_id };
        assert(e.spec_row() =~= cells(row@));
        Some(e)
    }

    proof fn lemma_shape(&self) {
    }
}

} // verus!
