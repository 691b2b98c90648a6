//! Timing measurements.
use vstd::prelude::*;
use crate::table::{Table, TableItem};
use crate::value::{Cell, Value, cells, get_double, get_i32, get_real, is_i32_cell};

verus! {

/// One timing measurement (time of arrival).
#[derive(Debug, Clone, Copy)]
pub struct TOAInfo {
    /// Identity assigned by the store; 0 before insertion.
    pub id: i32,
    /// The run that produced the measurement.
    pub process_id: i32,
    /// The template used.
    pub template_id: i32,
    /// The raw file used.
    pub rawfile_id: i32,
    /// The pulsar observed.
    pub pulsar_id: i32,
    /// The observing system.
    pub observer_id: i32,
    /// The integer day of the arrival time.
    pub toa_int: i32,
    /// The fraction of that day, as the bit pattern of a double.
    pub toa_frac: u64,
    /// The timing error, as the bit pattern of a single-precision number.
    pub toa_err: u32,
    /// The observing frequency, as the bit pattern of a single-precision number.
    pub frequency: u32,
}

/// One measurement as read from a line of the measurement tool: the arrival
/// time split into its integer day and the fraction of that day, its error
/// and the observing frequency. Floating-point values are bit patterns.
#[derive(Debug, Clone, Copy, PartialEq, Eq, Structural)]
pub struct Measurement {
    pub toa_int: i32,
    pub toa_frac: u64,
    pub toa_err: u32,
    pub frequency: u32,
}

impl TOAInfo {
    /// The not yet persisted record of a measurement, with its references.
    pub fn extract(
        toa: &Measurement,
        pulsar_id: i32,
        observer_id: i32,
        process_id: i32,
        template_id: i32,
        rawfile_id: i32,
    ) -> (r: Self)
        ensures
            r.id == 0,
            r.process_id == process_id,
            r.template_id == template_id,
            r.rawfile_id == rawfile_id,
            r.pulsar_id == pulsar_id,
            r.observer_id == observer_id,
            r.toa_int == toa.toa_int,
            r.toa_frac == toa.toa_frac,
            r.toa_err == toa.toa_err,
            r.frequency == toa.frequency,
    {
        TOAInfo {
            id: 0,
            process_id,
            template_id,
            rawfile_id,
            pulsar_id,
            observer_id,
            toa_int: toa.toa_int,
            toa_frac: toa.toa_frac,
            toa_err: toa.toa_err,
            frequency: toa.frequency,
        }
    }
}

impl TableItem for TOAInfo {
    open spec fn spec_table() -> Table {
        Table::Toas
    }

    open spec fn spec_columns() -> Seq<Seq<char>> {
        seq!["process_id"@, "template_id"@, "rawfile_id"@, "pulsar_id"@, "observer_id"@, "toa_int"@, "toa_frac"@, "toa_err"@, "frequency"@]
    }

    open spec fn spec_unique() -> Seq<int> {
        seq![]
    }

    open spec fn spec_id(&self) -> i32 {
        self.id
    }

    open spec fn spec_row(&self) -> Seq<Cell> {
        seq![
            Cell::Int(self.process_id as int),
            Cell::Int(self.template_id as int),
            Cell::Int(self.rawfile_id as int),
            Cell::Int(self.pulsar_id as int),
            Cell::Int(self.observer_id as int),
            Cell::Int(self.toa_int as int),
            Cell::Double(self.toa_frac),
            Cell::Real(self.toa_err),
            Cell::Real(self.frequency),
        ]
    }

    open spec fn spec_decodable(row: Seq<Cell>) -> bool {
        &&& row.len() == 9
        &&& is_i32_cell(row[0])
        &&& is_i32_cell(row[1])
        &&& is_i32_cell(row[2])
        &&& is_i32_cell(row[3])
        &&& is_i32_cell(row[4])
        &&& is_i32_cell(row[5])
        &&& row[6] is Double
        &&& row[7] is Real
        &&& row[8] is Real
    }

    fn table() -> (r: Table) {
        Table::Toas
    }

    fn id(&self) -> (r: i32) {
        self.id
    }

    fn insert_columns() -> (r: Vec<&'static str>) {
        let r = vec!["process_id", "template_id", "rawfile_id", "pulsar_id", "observer_id", "toa_int", "toa_frac", "toa_err", "frequency"];
        assert(crate::table::column_names(r@) =~= Self::spec_columns());
        r
    }

    fn unique_columns() -> (r: Vec<usize>) {
        vec![]
    }

    fn insert_values(&self) -> (r: Vec<Value>) {
        let r = vec![
            Value::Int(self.process_id as i64),
            Value::Int(self.template_id as i64),
            Value::Int(self.rawfile_id as i64),
            Value::Int(self.pulsar_id as i64),
            Value::Int(self.observer_id as i64),
            Value::Int(self.toa_int as i64),
            Value::Double(self.toa_frac),
            Value::Real(self.toa_err),
            Value::Real(self.frequency),
        ];
        assert(cells(r@) =~= self.spec_row());
        r
    }

    fn from_row(id: i32, row: &Vec<Value>) -> (r: Option<Self>) {
        if row.len() != 9 {
            return None;
        }
        let process_id = match get_i32(row, 0) {
            Some(v) => v,
            None => return None,
        };
        let template_id = match get_i32(row, 1) {
            Some(v) => v,
            None => return None,
        };
        let rawfile_id = match get_i32(row, 2) {
            Some(v) => v,
            None => return None,
        };
        let pulsar_id = match get_i32(row, 3) {
            Some(v) => v,
            None => return None,
        };
        let observer_id = match get_i32(row, 4) {
            Some(v) => v,
            None => return None,
        };
        let toa_int = match get_i32(row, 5) {
            Some(v) => v,
            None => return None,
        };
        let toa_frac = match get_double(row, 6) {
            Some(v) => v,
            None => return None,
        };
        let toa_err = match get_real(row, 7) {
            Some(v) => v,
            None => return None,
        };
        let frequency = match get_real(row, 8) {
            Some(v) => v,
            None => return None,
        };
        let e = TOAInfo { id, process_id, template_id, rawfile_id, pulsar_id, observer_id, toa_int, toa_frac, toa_err, frequency };
        assert(e.spec_row() =~= cells(row@));
        Some(e)
    }

    proof fn lemma_shape(&self) {
    }
}

} // verus!
