//! Pulsar metadata.
use vstd::prelude::*;
use crate::error::ARPAError;
use crate::table::{Table, TableItem};
use crate::text::{alphanumeric, is_alphanumeric, join3, same_text, split_whitespace, views, words_of};
use crate::value::{Cell, Value, cells, get_opt_i32, get_opt_text, get_text, is_opt_i32_cell, is_opt_text_cell, opt_int, opt_int_cell, opt_text, opt_text_cell};

verus! {

/// The metadata of a pulsar.
#[derive(Debug, Clone)]
pub struct PulsarMeta {
    /// Identity assigned by the store; 0 before insertion.
    pub id: i32,
    /// What the pulsar is commonly called.
    pub alias: String,
    /// The J name, if different from the alias.
    pub j_name: Option<String>,
    /// The B name, if any and different from the alias.
    pub b_name: Option<String>,
    /// The right ascension, "HH:MM:SS.F*".
    pub j2000_ra: Option<String>,
    /// The declination, "(+|-)DD:MM:SS.F*".
    pub j2000_dec: Option<String>,
    /// The reference timing model, if any.
    pub master_parfile_id: Option<i32>,
}

/// Whether the text parses as a right ascension with psrutils.
pub uninterp spec fn ra_parses(s: Seq<char>) -> bool;

/// Whether the text parses as a declination with psrutils.
pub uninterp spec fn dec_parses(s: Seq<char>) -> bool;

/// Relies on `psrutils::data_types::J2000Ra::from_str`: whether the text is a
/// right ascension `HH:MM:SS.F*` in range, and the error it gives if not.
#[verifier::external_body]
pub(crate) fn check_ra(s: &str) -> (r: Result<(), psrutils::error::PsruError>)
    ensures
        r is Ok <==> ra_parses(s@),
{
    match <psrutils::data_types::J2000Ra as std::str::FromStr>::from_str(s) {
        Ok(_) => Ok(()),
        Err(e) => Err(e),
    }
}

/// Relies on `psrutils::data_types::J2000Dec::from_str`: whether the text is a
/// declination `(+|-)DD:MM:SS.F*` in range, and the error it gives if not.
#[verifier::external_body]
pub(crate) fn check_dec(s: &str) -> (r: Result<(), psrutils::error::PsruError>)
    ensures
        r is Ok <==> dec_parses(s@),
{
    match <psrutils::data_types::J2000Dec as std::str::FromStr>::from_str(s) {
        Ok(_) => Ok(()),
        Err(e) => Err(e),
    }
}

/// A valid pulsar name: not empty, at most 20 bytes long, and made of
/// alphanumeric characters, `+` and `-`.
pub open spec fn valid_name(s: Seq<char>) -> bool {
    &&& s.len() > 0
    &&& vstd::utf8::encode_utf8(s).len() <= 20
    &&& forall|i: int| 0 <= i < s.len() ==> name_char(#[trigger] s[i])
}

pub open spec fn name_char(c: char) -> bool {
    alphanumeric(c) || c == '+' || c == '-'
}

/// Whether an optional name is absent or valid.
pub open spec fn valid_opt_name(s: Option<String>) -> bool {
    s matches Some(n) ==> valid_name(n@)
}

/// The text of the error about an invalid name.
pub open spec fn name_error(name: Seq<char>, what: Seq<char>) -> Seq<char> {
    "\""@ + name + what
}

/// An optional name, dropped when it repeats the alias.
pub open spec fn unless_alias(name: Option<String>, alias: String) -> Option<String> {
    if name matches Some(n) && n@ == alias@ {
        None
    } else {
        name
    }
}

/// The error, if any, that `verify` finds in a record, in the order it checks.
pub open spec fn verify_failure(m: PulsarMeta) -> Option<Seq<char>> {
    if !valid_name(m.alias@) {
        Some(name_error(m.alias@, "\" is not a valid pulsar alias"@))
    } else if !valid_opt_name(m.j_name) {
        Some(name_error(m.j_name->Some_0@, "\" is not a valid pulsar J name"@))
    } else if !valid_opt_name(m.b_name) {
        Some(name_error(m.b_name->Some_0@, "\" is not a valid pulsar B name"@))
    } else {
        None
    }
}

/// Whether the coordinates of a record parse, where present.
pub open spec fn coordinates_parse(m: PulsarMeta) -> bool {
    &&& (m.j2000_ra matches Some(ra) ==> ra_parses(ra@))
    &&& (m.j2000_dec matches Some(dec) ==> dec_parses(dec@))
}

/// The field at position `i` of a pulsar line: absent past the end or where
/// the line holds `.`.
pub open spec fn line_field(parts: Seq<Seq<char>>, i: int) -> Option<Seq<char>> {
    if i < parts.len() && parts[i] != "."@ {
        Some(parts[i])
    } else {
        None
    }
}

pub open spec fn opt_view(s: Option<String>) -> Option<Seq<char>> {
    match s {
        Some(t) => Some(t@),
        None => None,
    }
}

/// Whether a record holds what a pulsar line gives, before verification.
pub open spec fn read_from_line(m: PulsarMeta, parts: Seq<Seq<char>>) -> bool {
    &&& m.id == 0
    &&& m.alias@ == parts[0]
    &&& opt_view(m.j_name) == line_field(parts, 1)
    &&& opt_view(m.b_name) == line_field(parts, 2)
    &&& opt_view(m.j2000_ra) == line_field(parts, 3)
    &&& opt_view(m.j2000_dec) == line_field(parts, 4)
    &&& m.master_parfile_id is None
}

/// What reading a record from the fields of a line gives: an error for an
/// empty line, else the record the fields hold, as `verify` leaves it.
pub open spec fn read_outcome(r: Result<PulsarMeta, ARPAError>, parts: Seq<Seq<char>>) -> bool {
    &&& parts.len() == 0 ==> (r matches Err(ARPAError::MalformedInput(m)) && m@ == "pulsar line is empty"@)
    &&& parts.len() > 0 ==> (forall|m: PulsarMeta| #[trigger] read_from_line(m, parts) ==> {
        &&& verify_failure(m) matches Some(msg) ==> (r matches Err(ARPAError::MalformedInput(e)) && e@ == msg)
        &&& verify_failure(m) is None && !coordinates_parse(m) ==> (r matches Err(ARPAError::PSRUtils(_)))
        &&& verify_failure(m) is None && coordinates_parse(m) ==> (r matches Ok(v) && verified_form(m, v))
    })
}

/// Whether `after` is `before` as `verify` leaves it on success.
pub open spec fn verified_form(before: PulsarMeta, after: PulsarMeta) -> bool {
    &&& after.id == 0
    &&& after.alias@ == before.alias@
    &&& opt_view(after.j_name) == opt_view(unless_alias(before.j_name, before.alias))
    &&& opt_view(after.b_name) == opt_view(unless_alias(before.b_name, before.alias))
    &&& opt_view(after.j2000_ra) == opt_view(before.j2000_ra)
    &&& opt_view(after.j2000_dec) == opt_view(before.j2000_dec)
    &&& after.master_parfile_id == before.master_parfile_id
}

/// Reads the field of a pulsar line at a position.
fn take_field(parts: &[&str], i: usize) -> (r: Option<String>)
    ensures
        opt_view(r) == line_field(views(parts@), i as int),
{
    if i < parts.len() {
        let text = parts[i];
        if same_text(text, ".") {
            None
        } else {
            Some(String::from_str(text))
        }
    } else {
        None
    }
}

fn same_name(name: &Option<String>, alias: &String) -> (r: bool)
    ensures
        r == (name matches Some(n) && n@ == alias@),
{
    match name {
        Some(n) => same_text(n.as_str(), alias.as_str()),
        None => false,
    }
}

impl PulsarMeta {
    /// An empty record; it is not valid and must be verified before insertion.
    pub fn null() -> (r: Self)
        ensures
            r.id == 0,
            r.alias@.len() == 0,
            r.j_name is None,
            r.b_name is None,
            r.j2000_ra is None,
            r.j2000_dec is None,
            r.master_parfile_id is None,
    {
        PulsarMeta {
            id: 0,
            alias: String::new(),
            j_name: None,
            b_name: None,
            j2000_ra: None,
            j2000_dec: None,
            master_parfile_id: None,
        }
    }

    /// Whether a name is valid: not empty, at most 20 bytes, and made of
    /// alphanumeric characters, `+` and `-`.
    pub fn validate_name(name: &str) -> (r: bool)
        ensures
            r == valid_name(name@),
    {
        let n = name.unicode_len();
        let mut i: usize = 0;
        while i < n
            invariant
                n == name@.len(),
                i <= n,
                forall|j: int| 0 <= j < i ==> name_char(#[trigger] name@[j]),
            decreases n - i,
        {
            let c = name.get_char(i);
            if !(is_alphanumeric(c) || c == '+' || c == '-') {
                assert(!name_char(name@[i as int]));
                return false;
            }
            i = i + 1;
        }
        n > 0 && name.as_bytes().len() <= 20
    }

    fn validate_opt_name(name: &Option<String>) -> (r: bool)
        ensures
            r == valid_opt_name(*name),
    {
        match name {
            Some(n) => Self::validate_name(n.as_str()),
            None => true,
        }
    }

    /// Checks every field but the reference timing model, then drops J and B
    /// names that repeat the alias and resets the identity.
    pub fn verify(&mut self) -> (r: Result<(), ARPAError>)
        ensures
            verify_failure(*old(self)) matches Some(msg) ==> (r matches Err(ARPAError::MalformedInput(m))
                && m@ == msg && *final(self) == *old(self)),
            verify_failure(*old(self)) is None && !coordinates_parse(*old(self)) ==> (r matches Err(
                ARPAError::PSRUtils(_),
            ) && *final(self) == *old(self)),
            verify_failure(*old(self)) is None && coordinates_parse(*old(self)) ==> (r is Ok
                && verified_form(*old(self), *final(self))),
    {
        if !Self::validate_name(self.alias.as_str()) {
            return Err(ARPAError::MalformedInput(join3("\"", self.alias.as_str(), "\" is not a valid pulsar alias")));
        }
        if !Self::validate_opt_name(&self.j_name) {
            let j = self.j_name.as_ref().unwrap();
            return Err(ARPAError::MalformedInput(join3("\"", j.as_str(), "\" is not a valid pulsar J name")));
        }
        if !Self::validate_opt_name(&self.b_name) {
            let b = self.b_name.as_ref().unwrap();
            return Err(ARPAError::MalformedInput(join3("\"", b.as_str(), "\" is not a valid pulsar B name")));
        }
        if let Some(ra) = &self.j2000_ra {
            if let Err(e) = check_ra(ra.as_str()) {
                return Err(ARPAError::PSRUtils(e));
            }
        }
        if let Some(dec) = &self.j2000_dec {
            if let Err(e) = check_dec(dec.as_str()) {
                return Err(ARPAError::PSRUtils(e));
            }
        }
        if same_name(&self.j_name, &self.alias) {
            self.j_name = None;
        }
        if same_name(&self.b_name, &self.alias) {
            self.b_name = None;
        }
        self.id = 0;
        Ok(())
    }

    /// Reads a record from the fields of a line: the alias, then optionally
    /// the J name, the B name, the right ascension and the declination; a `.`
    /// skips a field. The record is verified before it is returned.
    pub fn from_strs(parts: &[&str]) -> (r: Result<Self, ARPAError>)
        ensures
            read_outcome(r, views(parts@)),
    {
        if parts.len() == 0 {
            return Err(ARPAError::MalformedInput(String::from_str("pulsar line is empty")));
        }
        let mut meta = Self::null();
        meta.alias = String::from_str(parts[0]);
        meta.j_name = take_field(parts, 1);
        meta.b_name = take_field(parts, 2);
        meta.j2000_ra = take_field(parts, 3);
        meta.j2000_dec = take_field(parts, 4);
        let ghost before = meta;
        assert(read_from_line(before, views(parts@)));
        proof {
            assert forall|m: PulsarMeta| #[trigger] read_from_line(m, views(parts@)) implies verify_failure(m) == verify_failure(before)
                && coordinates_parse(m) == coordinates_parse(before) by {
                lemma_same_line(m, before, views(parts@));
            }
        }
        match meta.verify() {
            Ok(()) => {
                proof {
                    assert forall|m: PulsarMeta| #[trigger] read_from_line(m, views(parts@)) implies verified_form(m, meta) by {
                        lemma_same_line(m, before, views(parts@));
                    }
                }
                Ok(meta)
            },
            Err(e) => Err(e),
        }
    }

    /// Reads a record from a line of whitespace-separated fields, as
    /// `from_strs` does.
    pub fn parse_line(s: &str) -> (r: Result<Self, ARPAError>)
        ensures
            read_outcome(r, words_of(s@)),
    {
        let parts = split_whitespace(s);
        Self::from_strs(parts.as_slice())
    }
}

impl std::str::FromStr for PulsarMeta {
    type Err = ARPAError;

    fn from_str(s: &str) -> Result<Self, ARPAError> {
        Self::parse_line(s)
    }
}

/// Two records read from the same line agree on everything `verify` decides.
proof fn lemma_same_line(a: PulsarMeta, b: PulsarMeta, parts: Seq<Seq<char>>)
    requires
        read_from_line(a, parts),
        read_from_line(b, parts),
    ensures
        a.alias@ == b.alias@,
        opt_view(a.j_name) == opt_view(b.j_name),
        verify_failure(a) == verify_failure(b),
        opt_view(unless_alias(a.j_name, a.alias)) == opt_view(unless_alias(b.j_name, b.alias)),
        opt_view(unless_alias(a.b_name, a.alias)) == opt_view(unless_alias(b.b_name, b.alias)),
        coordinates_parse(a) == coordinates_parse(b),
{
    assert(a.j_name is Some <==> b.j_name is Some);
    assert(opt_view(unless_alias(a.j_name, a.alias)) == opt_view(unless_alias(b.j_name, b.alias)));
    assert(opt_view(unless_alias(a.b_name, a.alias)) == opt_view(unless_alias(b.b_name, b.alias)));
    assert(a.b_name is Some <==> b.b_name is Some);
    assert(a.j2000_ra is Some <==> b.j2000_ra is Some);
    assert(a.j2000_dec is Some <==> b.j2000_dec is Some);
    if a.j_name is Some {
        assert(a.j_name->Some_0@ == b.j_name->Some_0@);
    }
    if a.b_name is Some {
        assert(a.b_name->Some_0@ == b.b_name->Some_0@);
    }
    if a.j2000_ra is Some {
        assert(a.j2000_ra->Some_0@ == b.j2000_ra->Some_0@);
    }
    if a.j2000_dec is Some {
        assert(a.j2000_dec->Some_0@ == b.j2000_dec->Some_0@);
    }
}

impl TableItem for PulsarMeta {
    open spec fn spec_table() -> Table {
        Table::PulsarMetas
    }

    open spec fn spec_columns() -> Seq<Seq<char>> {
        seq!["alias"@, "j_name"@, "b_name"@, "j2000_ra"@, "j2000_dec"@, "master_parfile_id"@]
    }

    open spec fn spec_unique() -> Seq<int> {
        seq![0int, 1int]
    }

    open spec fn spec_id(&self) -> i32 {
        self.id
    }

    open spec fn spec_row(&self) -> Seq<Cell> {
        seq![
            Cell::Text(self.alias@),
            opt_text_cell(self.j_name),
            opt_text_cell(self.b_name),
            opt_text_cell(self.j2000_ra),
            opt_text_cell(self.j2000_dec),
            opt_int_cell(self.master_parfile_id),
        ]
    }

    open spec fn spec_decodable(row: Seq<Cell>) -> bool {
        &&& row.len() == 6
        &&& row[0] is Text
        &&& is_opt_text_cell(row[1])
        &&& is_opt_text_cell(row[2])
        &&& is_opt_text_cell(row[3])
        &&& is_opt_text_cell(row[4])
        &&& is_opt_i32_cell(row[5])
    }

    fn table() -> (r: Table) {
        Table::PulsarMetas
    }

    fn id(&self) -> (r: i32) {
        self.id
    }

    fn insert_columns() -> (r: Vec<&'static str>) {
        let r = vec!["alias", "j_name", "b_name", "j2000_ra", "j2000_dec", "master_parfile_id"];
        assert(crate::table::column_names(r@) =~= Self::spec_columns());
        r
    }

    fn unique_columns() -> (r: Vec<usize>) {
        vec![0, 1]
    }

    fn insert_values(&self) -> (r: Vec<Value>) {
        let r = vec![
            Value::Text(self.alias.clone()),
            opt_text(&self.j_name),
            opt_text(&self.b_name),
            opt_text(&self.j2000_ra),
            opt_text(&self.j2000_dec),
            opt_int(self.master_parfile_id),
        ];
        assert(cells(r@) =~= self.spec_row());
        r
    }

    fn from_row(id: i32, row: &Vec<Value>) -> (r: Option<Self>) {
        if row.len() != 6 {
            return None;
        }
        let alias = match get_text(row, 0) {
            Some(v) => v,
            None => return None,
        };
        let j_name = match get_opt_text(row, 1) {
            Some(v) => v,
            None => return None,
        };
        let b_name = match get_opt_text(row, 2) {
            Some(v) => v,
            None => return None,
        };
        let j2000_ra = match get_opt_text(row, 3) {
            Some(v) => v,
            None => return None,
        };
        let j2000_dec = match get_opt_text(row, 4) {
            Some(v) => v,
            None => return None,
        };
        let master_parfile_id = match get_opt_i32(row, 5) {
            Some(v) => v,
            None => return None,
        };
        let e = PulsarMeta { id, alias, j_name, b_name, j2000_ra, j2000_dec, master_parfile_id };
        assert(e.spec_row() =~= cells(row@));
        Some(e)
    }

    proof fn lemma_shape(&self) {
    }
}

} // verus!
