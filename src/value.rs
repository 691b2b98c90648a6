//! Values bound into statements, and predicates over table columns.
use vstd::prelude::*;

verus! {

/// One value of a table cell, as it is bound into a statement.
#[derive(Debug, Clone)]
pub enum Value {
    Null,
    Bool(bool),
    Int(i64),
    Text(String),
    /// A 128-bit content checksum, stored in a uuid column.
    Checksum(u128),
    /// The IEEE-754 bit pattern of a single-precision number.
    Real(u32),
    /// The IEEE-754 bit pattern of a double-precision number.
    Double(u64),
    /// Nanoseconds since the Unix epoch, UTC.
    Timestamp(i128),
}

/// The mathematical model of a cell.
pub ghost enum Cell {
    Null,
    Bool(bool),
    Int(int),
    Text(Seq<char>),
    Checksum(u128),
    Real(u32),
    Double(u64),
    Timestamp(i128),
}

impl View for Value {
    type V = Cell;

    open spec fn view(&self) -> Cell {
        match self {
            Value::Null => Cell::Null,
            Value::Bool(b) => Cell::Bool(*b),
            Value::Int(i) => Cell::Int(*i as int),
            Value::Text(s) => Cell::Text(s@),
            Value::Checksum(c) => Cell::Checksum(*c),
            Value::Real(r) => Cell::Real(*r),
            Value::Double(d) => Cell::Double(*d),
            Value::Timestamp(t) => Cell::Timestamp(*t),
        }
    }
}

/// The model of a sequence of values.
pub open spec fn cells(vs: Seq<Value>) -> Seq<Cell> {
    vs.map_values(|v: Value| v@)
}

/// A copy of a value, with the same model.
pub fn copy_value(v: &Value) -> (r: Value)
    ensures
        r@ == v@,
{
    match v {
        Value::Null => Value::Null,
        Value::Bool(b) => Value::Bool(*b),
        Value::Int(i) => Value::Int(*i),
        Value::Text(s) => Value::Text(s.clone()),
        Value::Checksum(c) => Value::Checksum(*c),
        Value::Real(x) => Value::Real(*x),
        Value::Double(x) => Value::Double(*x),
        Value::Timestamp(t) => Value::Timestamp(*t),
    }
}

/// The value of an optional integer: NULL when absent.
pub fn opt_int(v: Option<i32>) -> (r: Value)
    ensures
        r@ == opt_int_cell(v),
{
    match v {
        Some(i) => Value::Int(i as i64),
        None => Value::Null,
    }
}

pub open spec fn opt_int_cell(v: Option<i32>) -> Cell {
    match v {
        Some(i) => Cell::Int(i as int),
        None => Cell::Null,
    }
}

/// The value of an optional text: NULL when absent.
pub fn opt_text(v: &Option<String>) -> (r: Value)
    ensures
        r@ == opt_text_cell(*v),
{
    match v {
        Some(s) => Value::Text(s.clone()),
        None => Value::Null,
    }
}

pub open spec fn opt_text_cell(v: Option<String>) -> Cell {
    match v {
        Some(s) => Cell::Text(s@),
        None => Cell::Null,
    }
}

/// One comparison `column = value`.
#[derive(Debug, Clone)]
pub struct Term {
    pub column: &'static str,
    pub value: Value,
}

/// A `where` condition: the terms joined by `or` when `any` holds, else by `and`.
#[derive(Debug, Clone)]
pub struct Predicate {
    pub terms: Vec<Term>,
    pub any: bool,
}

/// Whether a row, its cells listed in the order of `columns`, satisfies one
/// comparison. As in SQL, a comparison with NULL never holds.
pub open spec fn term_holds(column: Seq<char>, value: Cell, columns: Seq<Seq<char>>, row: Seq<Cell>) -> bool {
    value != Cell::Null && exists|i: int|
        0 <= i < columns.len() && i < row.len() && columns[i] == column && row[i] == value
}

/// Whether a row satisfies a predicate.
pub open spec fn predicate_holds(p: Predicate, columns: Seq<Seq<char>>, row: Seq<Cell>) -> bool {
    if p.any {
        exists|k: int|
            0 <= k < p.terms.len() && term_holds(
                p.terms@[k].column@,
                p.terms@[k].value@,
                columns,
                row,
            )
    } else {
        forall|k: int|
            0 <= k < p.terms.len() ==> term_holds(
                p.terms@[k].column@,
                p.terms@[k].value@,
                columns,
                row,
            )
    }
}


/// Whether a cell holds an integer in the range of `i32`.
pub open spec fn is_i32_cell(c: Cell) -> bool {
    c matches Cell::Int(v) && i32::MIN <= v <= i32::MAX
}

/// Whether a cell holds an integer in the range of `i16`.
pub open spec fn is_i16_cell(c: Cell) -> bool {
    c matches Cell::Int(v) && i16::MIN <= v <= i16::MAX
}

/// Whether a cell holds NULL or an integer in the range of `i32`.
pub open spec fn is_opt_i32_cell(c: Cell) -> bool {
    c is Null || is_i32_cell(c)
}

/// Whether a cell holds NULL or a text.
pub open spec fn is_opt_text_cell(c: Cell) -> bool {
    c is Null || c is Text
}

/// Reads an `i32` from a cell.
pub fn get_i32(row: &Vec<Value>, i: usize) -> (r: Option<i32>)
    requires
        i < row@.len(),
    ensures
        r is Some <==> is_i32_cell(row@[i as int]@),
        r matches Some(v) ==> row@[i as int]@ == Cell::Int(v as int),
{
    match &row[i] {
        Value::Int(v) => {
            if i32::MIN as i64 <= *v && *v <= i32::MAX as i64 {
                Some(*v as i32)
            } else {
                None
            }
        },
        _ => None,
    }
}

/// Reads an `i16` from a cell.
pub fn get_i16(row: &Vec<Value>, i: usize) -> (r: Option<i16>)
    requires
        i < row@.len(),
    ensures
        r is Some <==> is_i16_cell(row@[i as int]@),
        r matches Some(v) ==> row@[i as int]@ == Cell::Int(v as int),
{
    match &row[i] {
        Value::Int(v) => {
            if i16::MIN as i64 <= *v && *v <= i16::MAX as i64 {
                Some(*v as i16)
            } else {
                None
            }
        },
        _ => None,
    }
}

/// Reads an optional `i32` from a cell; NULL reads as `None`.
pub fn get_opt_i32(row: &Vec<Value>, i: usize) -> (r: Option<Option<i32>>)
    requires
        i < row@.len(),
    ensures
        r is Some <==> is_opt_i32_cell(row@[i as int]@),
        r matches Some(v) ==> row@[i as int]@ == opt_int_cell(v),
{
    match &row[i] {
        Value::Null => Some(None),
        _ => match get_i32(row, i) {
            Some(v) => Some(Some(v)),
            None => None,
        },
    }
}

/// Reads a text from a cell.
pub fn get_text(row: &Vec<Value>, i: usize) -> (r: Option<String>)
    requires
        i < row@.len(),
    ensures
        r is Some <==> row@[i as int]@ is Text,
        r matches Some(v) ==> row@[i as int]@ == Cell::Text(v@),
{
    match &row[i] {
        Value::Text(s) => Some(s.clone()),
        _ => None,
    }
}

/// Reads an optional text from a cell; NULL reads as `None`.
pub fn get_opt_text(row: &Vec<Value>, i: usize) -> (r: Option<Option<String>>)
    requires
        i < row@.len(),
    ensures
        r is Some <==> is_opt_text_cell(row@[i as int]@),
        r matches Some(v) ==> row@[i as int]@ == opt_text_cell(v),
{
    match &row[i] {
        Value::Null => Some(None),
        Value::Text(s) => Some(Some(s.clone())),
        _ => None,
    }
}

/// Reads a checksum from a cell.
pub fn get_checksum(row: &Vec<Value>, i: usize) -> (r: Option<u128>)
    requires
        i < row@.len(),
    ensures
        r is Some <==> row@[i as int]@ is Checksum,
        r matches Some(v) ==> row@[i as int]@ == Cell::Checksum(v),
{
    match &row[i] {
        Value::Checksum(c) => Some(*c),
        _ => None,
    }
}

/// Reads a single-precision bit pattern from a cell.
pub fn get_real(row: &Vec<Value>, i: usize) -> (r: Option<u32>)
    requires
        i < row@.len(),
    ensures
        r is Some <==> row@[i as int]@ is Real,
        r matches Some(v) ==> row@[i as int]@ == Cell::Real(v),
{
    match &row[i] {
        Value::Real(x) => Some(*x),
        _ => None,
    }
}

/// Reads a double-precision bit pattern from a cell.
pub fn get_double(row: &Vec<Value>, i: usize) -> (r: Option<u64>)
    requires
        i < row@.len(),
    ensures
        r is Some <==> row@[i as int]@ is Double,
        r matches Some(v) ==> row@[i as int]@ == Cell::Double(v),
{
    match &row[i] {
        Value::Double(x) => Some(*x),
        _ => None,
    }
}

/// Reads a boolean from a cell.
pub fn get_bool(row: &Vec<Value>, i: usize) -> (r: Option<bool>)
    requires
        i < row@.len(),
    ensures
        r is Some <==> row@[i as int]@ is Bool,
        r matches Some(v) ==> row@[i as int]@ == Cell::Bool(v),
{
    match &row[i] {
        Value::Bool(b) => Some(*b),
        _ => None,
    }
}

/// Reads a timestamp from a cell.
pub fn get_timestamp(row: &Vec<Value>, i: usize) -> (r: Option<i128>)
    requires
        i < row@.len(),
    ensures
        r is Some <==> row@[i as int]@ is Timestamp,
        r matches Some(v) ==> row@[i as int]@ == Cell::Timestamp(v),
{
    match &row[i] {
        Value::Timestamp(t) => Some(*t),
        _ => None,
    }
}

} // verus!
