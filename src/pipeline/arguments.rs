//! Inputs of a run: each of the raw file, the timing model and the template
//! is named either by the identity of a stored record or by the path of a
//! fresh file.
use vstd::prelude::*;
use crate::archivist::{Archivist, Statement};
use crate::conveniences::Parse;
use crate::table::TableItem;
use crate::value::{Cell, Predicate, Term, Value};

verus! {

/// How an input is named.
#[derive(Debug)]
pub enum InputRef {
    /// The identity of a stored record.
    Id(i32),
    /// The path of a fresh file.
    Path(String),
}

/// An input is an identity when its text reads as an `i32`, else a path.
pub fn parse_input(text: &str) -> (r: InputRef)
    ensures
        i32::spec_parse(text@) matches Some(id) ==> r matches InputRef::Id(i) && i == id,
        i32::spec_parse(text@) is None ==> (r matches InputRef::Path(p) && p@ == text@),
{
    match i32::parse_text(text) {
        Some(id) => InputRef::Id(id),
        None => InputRef::Path(String::from_str(text)),
    }
}

/// The raw file input.
pub fn parse_input_raw(text: &str) -> (r: InputRef)
    ensures
        i32::spec_parse(text@) matches Some(id) ==> r matches InputRef::Id(i) && i == id,
        i32::spec_parse(text@) is None ==> (r matches InputRef::Path(p) && p@ == text@),
{
    parse_input(text)
}

/// The timing model input.
pub fn parse_input_ephemeride(text: &str) -> (r: InputRef)
    ensures
        i32::spec_parse(text@) matches Some(id) ==> r matches InputRef::Id(i) && i == id,
        i32::spec_parse(text@) is None ==> (r matches InputRef::Path(p) && p@ == text@),
{
    parse_input(text)
}

/// The template input.
pub fn parse_input_template(text: &str) -> (r: InputRef)
    ensures
        i32::spec_parse(text@) matches Some(id) ==> r matches InputRef::Id(i) && i == id,
        i32::spec_parse(text@) is None ==> (r matches InputRef::Path(p) && p@ == text@),
{
    parse_input(text)
}

/// With duplicate resolution on, the read that looks for a stored record of
/// a fresh file's checksum; with it off, none: the fresh record is inserted
/// and a collision is an error.
pub fn duplicate_query<T: TableItem>(checksum: u128, auto_resolve: bool) -> (r: Option<Statement>)
    ensures
        !auto_resolve ==> r is None,
        auto_resolve ==> (r matches Some(Statement::Select { table, filter: Some(f), limit_one, .. })
            && table == T::spec_table() && !f.any && f.terms@.len() == 1 && f.terms@[0].column@ == "checksum"@
            && f.terms@[0].value@ == Cell::Checksum(checksum) && limit_one),
{
    if !auto_resolve {
        return None;
    }
    let terms = vec![Term { column: "checksum", value: Value::Checksum(checksum) }];
    Some(Archivist::find::<T>(Predicate { terms, any: false }))
}

/// What becomes of a fresh file's record.
#[derive(Debug)]
pub enum Resolution<T> {
    /// A stored record has the same content: it is used instead.
    Reuse(T),
    /// The fresh record is inserted.
    Insert(T),
}

/// Picks the stored record found by `duplicate_query`, if any, over the
/// fresh one.
pub fn resolve_duplicate<T>(fresh: T, existing: Option<T>) -> (r: Resolution<T>)
    ensures
        existing matches Some(e) ==> r == Resolution::Reuse(e),
        existing is None ==> r == Resolution::Insert(fresh),
{
    match existing {
        Some(e) => Resolution::Reuse(e),
        None => Resolution::Insert(fresh),
    }
}

} // verus!
