//! Errors of the library.
use vstd::prelude::*;
use crate::conveniences::{comma_separate, grouped};
use crate::table::{table_name, Table};
use crate::text::{decimal, decimal_string, push_decimal, signed_decimal};
use crate::value::{cells, Cell, Value};

verus! {

#[verifier::external_type_specification]
#[verifier::external_body]
pub struct ExSqlxError(sqlx::Error);

#[verifier::external_type_specification]
#[verifier::external_body]
pub struct ExPsruError(psrutils::error::PsruError);

#[verifier::external_type_specification]
#[verifier::external_body]
pub struct ExIoError(std::io::Error);

/// Errors of the store.
#[derive(Debug)]
pub enum ArchivistError {
    /// The database driver failed.
    Sqlx(sqlx::Error),
    /// The values collide with the row of the given identity in the table.
    EntryAlreadyExists(Vec<Value>, Table, i32),
    NoTransactionToCommit,
    NoTransactionToRollback,
    TransactionAlreadyLive,
    /// No row of the table has this identity.
    MissingID(Table, i32),
    /// A row of the table, with this identity, does not have the entity's shape.
    MalformedRow(Table, i32),
}

/// Errors of the archive as a whole.
#[derive(Debug)]
pub enum ARPAError {
    IOFault(std::io::Error),
    PSRUtils(psrutils::error::PsruError),
    /// An external tool failed: its name, exit code, standard output and error.
    ToolFailure(String, Option<i32>, Vec<u8>, Vec<u8>),
    /// A worker could not be joined.
    JoinThread(String),
    ConfigFailure(String),
    MissingFileOrDirectory(String),
    StringConversion(Vec<u8>),
    ArchivistError(ArchivistError),
    MalformedInput(String),
    /// A text could not be read as a value of the named type.
    ParseFailed(String, &'static str),
    /// A copy did not verify: source and destination checksums, then sizes.
    FileCopy(u128, u128, u64, u64),
    CantFind(String),
    ChefNoEphemeride,
    ChefNoTemplate,
    ChefNoRaw,
    /// The header tool was asked for this many values and returned that many.
    VapKeyCount(usize, usize),
    UnknownDiagnostic(String),
    DiagnosticPlotBadFile(String),
    /// The measurement tool's output does not start with its format line.
    TOAExpectedFormat(String),
    /// The file's content no longer has its recorded checksum.
    ChecksumFail(String),
    /// A pipeline run was handed an event that does not answer its last action.
    OutOfStep,
}

/// Relies on the `Display` of `sqlx::Error`; nothing is known of the text.
#[verifier::external_body]
fn sqlx_text(e: &sqlx::Error) -> String {
    e.to_string()
}

/// Relies on the `Display` of `std::io::Error`; nothing is known of the text.
#[verifier::external_body]
fn io_text(e: &std::io::Error) -> String {
    e.to_string()
}

/// Relies on the `Display` of `psrutils::error::PsruError`; nothing is known
/// of the text.
#[verifier::external_body]
fn psru_text(e: &psrutils::error::PsruError) -> String {
    e.to_string()
}

/// The text of bytes read as UTF-8, with invalid sequences replaced, as
/// `String::from_utf8_lossy` gives it.
pub uninterp spec fn lossy_text(bytes: Seq<u8>) -> Seq<char>;

/// Relies on `String::from_utf8_lossy`; the text depends on the bytes alone.
#[verifier::external_body]
fn lossy(bytes: &Vec<u8>) -> (r: String)
    ensures
        r@ == lossy_text(bytes@),
{
    String::from_utf8_lossy(bytes).into_owned()
}

/// The text of a value in an error: texts quoted, NULL, numbers in decimal,
/// floating-point bit patterns after a `#`.
pub open spec fn value_text(c: Cell) -> Seq<char> {
    match c {
        Cell::Null => "NULL"@,
        Cell::Bool(b) => if b { "true"@ } else { "false"@ },
        Cell::Int(i) => signed_decimal(i),
        Cell::Text(t) => "'"@ + t + "'"@,
        Cell::Checksum(c) => decimal(c as nat),
        Cell::Real(x) => "#"@ + decimal(x as nat),
        Cell::Double(x) => "#"@ + decimal(x as nat),
        Cell::Timestamp(t) => signed_decimal(t as int),
    }
}

/// Values joined by `, `.
pub open spec fn values_text(cs: Seq<Cell>) -> Seq<char>
    decreases cs.len(),
{
    if cs.len() == 0 {
        Seq::empty()
    } else if cs.len() == 1 {
        value_text(cs[0])
    } else {
        values_text(cs.drop_last()) + ", "@ + value_text(cs.last())
    }
}

fn push_value(r: &mut String, v: &Value)
    ensures
        final(r)@ == old(r)@ + value_text(v@),
{
    let ghost start = r@;
    match v {
        Value::Null => {
            r.append("NULL");
        },
        Value::Bool(b) => {
            if *b {
                r.append("true");
            } else {
                r.append("false");
            }
        },
        Value::Int(i) => {
            r.append(decimal_string(*i).as_str());
        },
        Value::Text(t) => {
            r.append("'");
            r.append(t.as_str());
            r.append("'");
            assert(r@ =~= start + value_text(v@));
        },
        Value::Checksum(c) => {
            push_decimal(r, *c);
        },
        Value::Real(x) => {
            r.append("#");
            push_decimal(r, *x as u128);
            assert(r@ =~= start + value_text(v@));
        },
        Value::Double(x) => {
            r.append("#");
            push_decimal(r, *x as u128);
            assert(r@ =~= start + value_text(v@));
        },
        Value::Timestamp(t) => {
            if *t < 0 {
                crate::text::push_char(r, '-');
                let m: u128 = if *t == i128::MIN { (i128::MAX as u128) + 1 } else { (-*t) as u128 };
                assert(m as int == -(*t as int));
                push_decimal(r, m);
                assert(r@ =~= start + value_text(v@));
            } else {
                push_decimal(r, *t as u128);
            }
        },
    }
}

fn push_values(r: &mut String, vs: &Vec<Value>)
    ensures
        final(r)@ == old(r)@ + values_text(cells(vs@)),
{
    let ghost start = r@;
    let mut i: usize = 0;
    while i < vs.len()
        invariant
            i <= vs@.len(),
            r@ == start + values_text(cells(vs@.take(i as int))),
        decreases vs@.len() - i,
    {
        let ghost before = vs@.take(i as int);
        if i > 0 {
            r.append(", ");
        }
        push_value(r, &vs[i]);
        i = i + 1;
        assert(cells(vs@.take(i as int)).drop_last() =~= cells(before));
        assert(r@ =~= start + values_text(cells(vs@.take(i as int))));
    }
    assert(vs@.take(vs@.len() as int) =~= vs@);
}

/// The text an error of the store is reported with; an error of the driver
/// is reported with the driver's own text after `[sqlx] `.
pub open spec fn archivist_error_text(e: ArchivistError) -> Option<Seq<char>> {
    match e {
        ArchivistError::Sqlx(_) => None,
        ArchivistError::EntryAlreadyExists(key, table, id) => Some("("@ + values_text(cells(key@))
            + ") conflicts with preexisting entry (id = "@ + signed_decimal(id as int) + ") in "@
            + table_name(table)),
        ArchivistError::NoTransactionToCommit => Some("Archivist was asked to commit a transaction, but none had begun."@),
        ArchivistError::NoTransactionToRollback => Some("Archivist was asked to rollback a transaction, but none had begun."@),
        ArchivistError::TransactionAlreadyLive => Some("Archivist was asked to start a transaction, but one is already live."@),
        ArchivistError::MissingID(table, id) => Some("There is no entry with id "@ + signed_decimal(id as int)
            + " in table \""@ + table_name(table) + "\"."@),
        ArchivistError::MalformedRow(table, id) => Some("The row with id "@ + signed_decimal(id as int)
            + " in table \""@ + table_name(table) + "\" does not have the expected shape."@),
    }
}

impl ArchivistError {
    /// The text the error is reported with.
    pub fn message(&self) -> (r: String)
        ensures
            archivist_error_text(*self) matches Some(t) ==> r@ == t,
            self is Sqlx ==> r@.take(7) == "[sqlx] "@,
    {
        let mut r = String::new();
        match self {
            ArchivistError::Sqlx(e) => {
                proof {
                    reveal_strlit("[sqlx] ");
                }
                r.append("[sqlx] ");
                let ghost head = r@;
                assert(head.len() == 7);
                r.append(sqlx_text(e).as_str());
                assert(r@.take(7) =~= head);
            },
            ArchivistError::EntryAlreadyExists(key, table, id) => {
                r.append("(");
                push_values(&mut r, key);
                r.append(") conflicts with preexisting entry (id = ");
                r.append(decimal_string(*id as i64).as_str());
                r.append(") in ");
                r.append(table.name());
            },
            ArchivistError::NoTransactionToCommit => r.append("Archivist was asked to commit a transaction, but none had begun."),
            ArchivistError::NoTransactionToRollback => r.append("Archivist was asked to rollback a transaction, but none had begun."),
            ArchivistError::TransactionAlreadyLive => r.append("Archivist was asked to start a transaction, but one is already live."),
            ArchivistError::MissingID(table, id) => {
                r.append("There is no entry with id ");
                r.append(decimal_string(*id as i64).as_str());
                r.append(" in table \"");
                r.append(table.name());
                r.append("\".");
            },
            ArchivistError::MalformedRow(table, id) => {
                r.append("The row with id ");
                r.append(decimal_string(*id as i64).as_str());
                r.append(" in table \"");
                r.append(table.name());
                r.append("\" does not have the expected shape.");
            },
        }
        proof {
            if let Some(t) = archivist_error_text(*self) {
                assert(r@ =~= t);
            }
        }
        r
    }
}

/// The bytes of a `Vec<u8>` as its `Debug` form shows them: `[1, 2, 3]`.
pub open spec fn bytes_text(b: Seq<u8>) -> Seq<char> {
    "["@ + bytes_list(b) + "]"@
}

pub open spec fn bytes_list(b: Seq<u8>) -> Seq<char>
    decreases b.len(),
{
    if b.len() == 0 {
        Seq::empty()
    } else if b.len() == 1 {
        decimal(b[0] as nat)
    } else {
        bytes_list(b.drop_last()) + ", "@ + decimal(b.last() as nat)
    }
}

fn push_bytes(r: &mut String, b: &Vec<u8>)
    ensures
        final(r)@ == old(r)@ + bytes_text(b@),
{
    let ghost start = r@;
    r.append("[");
    let mut i: usize = 0;
    while i < b.len()
        invariant
            i <= b@.len(),
            r@ == start + "["@ + bytes_list(b@.take(i as int)),
        decreases b@.len() - i,
    {
        let ghost before = b@.take(i as int);
        if i > 0 {
            r.append(", ");
        }
        push_decimal(r, b[i] as u128);
        i = i + 1;
        assert(b@.take(i as int).drop_last() =~= before);
        assert(r@ =~= start + "["@ + bytes_list(b@.take(i as int)));
    }
    assert(b@.take(b@.len() as int) =~= b@);
    r.append("]");
    assert(r@ =~= start + bytes_text(b@));
}

/// The text an error is reported with, where it carries no error of an
/// outside crate or of the operating system.
pub open spec fn error_text(e: ARPAError) -> Option<Seq<char>> {
    match e {
        ARPAError::IOFault(_) => None,
        ARPAError::PSRUtils(_) => None,
        ARPAError::ToolFailure(tool, code, out, err) => Some("Tool \""@ + tool@ + "\" failed"@ + match code {
            Some(c) => "(code: "@ + signed_decimal(c as int) + ")"@,
            None => "(codeless)"@,
        } + "\n-- stdout:\n"@ + lossy_text(out@) + "\n-- stderr:\n"@ + lossy_text(err@)),
        ARPAError::JoinThread(msg) => Some("One of your threads was unable to join, saying: \""@ + msg@ + "\""@),
        ARPAError::ConfigFailure(err) => Some("Encountered error reading config file: "@ + err@),
        ARPAError::MissingFileOrDirectory(path) => Some("File or directory \""@ + path@ + "\" is missing."@),
        ARPAError::StringConversion(bytes) => Some("Failed to parse string from bytes: "@ + bytes_text(bytes@)),
        ARPAError::ArchivistError(err) => match archivist_error_text(err) {
            Some(t) => Some("Archivist failed action.\n"@ + t),
            None => None,
        },
        ARPAError::MalformedInput(c) => Some("Malformed input: "@ + c@ + "."@),
        ARPAError::ParseFailed(data, target) => Some("Failed to parse \""@ + data@ + "\" as "@ + target@),
        ARPAError::FileCopy(a, b, c, d) => Some("Copying file failed! \n\tchecksum: "@ + decimal(a as nat) + " -> "@
            + decimal(b as nat) + "\n\tsize: "@ + grouped(c as nat) + " -> "@ + grouped(d as nat)),
        ARPAError::CantFind(thing) => Some("Could not find "@ + thing@ + "."@),
        ARPAError::ChefNoEphemeride => Some("Cannot build chef without ephemeride."@),
        ARPAError::ChefNoTemplate => Some("Cannot build chef without template."@),
        ARPAError::ChefNoRaw => Some("Somehow we got here without a rawfile..."@),
        ARPAError::VapKeyCount(k, v) => Some("Psrchive::vap was asked for "@ + decimal(k as nat) + " values but returned "@
            + decimal(v as nat) + "."@),
        ARPAError::UnknownDiagnostic(d) => Some("\""@ + d@ + "\" is not a recognised diagnostic tool."@),
        ARPAError::DiagnosticPlotBadFile(f) => Some("Can't figure out what you want to plot from "@ + f@ + "."@),
        ARPAError::TOAExpectedFormat(out) => Some("The measurement tool's output does not start with its format line:\n"@ + out@),
        ARPAError::ChecksumFail(path) => Some("The checksum of \""@ + path@ + "\" does not match its record."@),
        ARPAError::OutOfStep => Some("A pipeline run was handed an event that does not answer its last action."@),
    }
}

impl ARPAError {
    /// The text the error is reported with.
    pub fn message(&self) -> (r: String)
        ensures
            error_text(*self) matches Some(t) ==> r@ == t,
    {
        let mut r = String::new();
        match self {
            ARPAError::IOFault(e) => {
                r.append("[std::io] ");
                r.append(io_text(e).as_str());
            },
            ARPAError::PSRUtils(e) => {
                r.append("[psrutils] ");
                r.append(psru_text(e).as_str());
            },
            ARPAError::ToolFailure(tool, code, out, err) => {
                r.append("Tool \"");
                r.append(tool.as_str());
                r.append("\" failed");
                match code {
                    Some(c) => {
                        r.append("(code: ");
                        r.append(decimal_string(*c as i64).as_str());
                        r.append(")");
                    },
                    None => r.append("(codeless)"),
                }
                r.append("\n-- stdout:\n");
                r.append(lossy(out).as_str());
                r.append("\n-- stderr:\n");
                r.append(lossy(err).as_str());
            },
            ARPAError::JoinThread(msg) => {
                r.append("One of your threads was unable to join, saying: \"");
                r.append(msg.as_str());
                r.append("\"");
            },
            ARPAError::ConfigFailure(err) => {
                r.append("Encountered error reading config file: ");
                r.append(err.as_str());
            },
            ARPAError::MissingFileOrDirectory(path) => {
                r.append("File or directory \"");
                r.append(path.as_str());
                r.append("\" is missing.");
            },
            ARPAError::StringConversion(bytes) => {
                r.append("Failed to parse string from bytes: ");
                push_bytes(&mut r, bytes);
            },
            ARPAError::ArchivistError(err) => {
                r.append("Archivist failed action.\n");
                r.append(err.message().as_str());
            },
            ARPAError::MalformedInput(c) => {
                r.append("Malformed input: ");
                r.append(c.as_str());
                r.append(".");
            },
            ARPAError::ParseFailed(data, target) => {
                r.append("Failed to parse \"");
                r.append(data.as_str());
                r.append("\" as ");
                r.append(target);
            },
            ARPAError::FileCopy(a, b, c, d) => {
                r.append("Copying file failed! \n\tchecksum: ");
                push_decimal(&mut r, *a);
                r.append(" -> ");
                push_decimal(&mut r, *b);
                r.append("\n\tsize: ");
                r.append(comma_separate(*c).as_str());
                r.append(" -> ");
                r.append(comma_separate(*d).as_str());
            },
            ARPAError::CantFind(thing) => {
                r.append("Could not find ");
                r.append(thing.as_str());
                r.append(".");
            },
            ARPAError::ChefNoEphemeride => r.append("Cannot build chef without ephemeride."),
            ARPAError::ChefNoTemplate => r.append("Cannot build chef without template."),
            ARPAError::ChefNoRaw => r.append("Somehow we got here without a rawfile..."),
            ARPAError::VapKeyCount(k, v) => {
                r.append("Psrchive::vap was asked for ");
                push_decimal(&mut r, *k as u128);
                r.append(" values but returned ");
                push_decimal(&mut r, *v as u128);
                r.append(".");
            },
            ARPAError::UnknownDiagnostic(d) => {
                r.append("\"");
                r.append(d.as_str());
                r.append("\" is not a recognised diagnostic tool.");
            },
            ARPAError::DiagnosticPlotBadFile(f) => {
                r.append("Can't figure out what you want to plot from ");
                r.append(f.as_str());
                r.append(".");
            },
            ARPAError::TOAExpectedFormat(out) => {
                r.append("The measurement tool's output does not start with its format line:\n");
                r.append(out.as_str());
            },
            ARPAError::ChecksumFail(path) => {
                r.append("The checksum of \"");
                r.append(path.as_str());
                r.append("\" does not match its record.");
            },
            ARPAError::OutOfStep => r.append("A pipeline run was handed an event that does not answer its last action."),
        }
        proof {
            if let Some(t) = error_text(*self) {
                assert(r@ =~= t);
            }
        }
        r
    }
}

impl From<ArchivistError> for ARPAError {
    fn from(value: ArchivistError) -> (r: ARPAError)
        ensures
            r == ARPAError::ArchivistError(value),
    {
        ARPAError::ArchivistError(value)
    }
}

impl vstd::std_specs::convert::FromSpecImpl<ArchivistError> for ARPAError {
    open spec fn obeys_from_spec() -> bool {
        true
    }

    open spec fn from_spec(v: ArchivistError) -> ARPAError {
        ARPAError::ArchivistError(v)
    }
}

} // verus!
