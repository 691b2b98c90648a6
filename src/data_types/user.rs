//! Users of the archive.
use vstd::prelude::*;
use crate::error::ARPAError;
use crate::table::{Table, TableItem};
use crate::text::{ascii_lower, ascii_white_space, join3, to_ascii_lowercase};
use crate::value::{Cell, Value, cells, get_bool, get_text, get_timestamp};

verus! {

/// A user of the archive.
#[derive(Debug, Clone)]
pub struct User {
    /// Identity assigned by the store; 0 before insertion.
    pub id: i32,
    pub username: String,
    pub real_name: String,
    pub email: String,
    pub is_admin: bool,
    /// Creation time, in nanoseconds since the Unix epoch (UTC).
    pub created_at: i128,
}

/// The number of bytes of a text in UTF-8.
pub open spec fn byte_len(s: Seq<char>) -> nat {
    vstd::utf8::encode_utf8(s).len()
}

/// Why a username is refused, if it is: its length in bytes, then its
/// characters, then whitespace.
pub open spec fn username_failure(s: Seq<char>) -> Option<Seq<char>> {
    if byte_len(s) > 12 || byte_len(s) < 3 {
        Some("'"@ + s + "'; username must be 3--12 characters long."@)
    } else if !vstd::utf8::is_ascii_chars(s) {
        Some("'"@ + s + "'; username must be only ASCII."@)
    } else if exists|i: int| 0 <= i < s.len() && ascii_white_space(#[trigger] s[i]) {
        Some("'"@ + s + "'; username cannot contain whitespace."@)
    } else {
        None
    }
}

/// Why a real name is refused, if it is.
pub open spec fn real_name_failure(s: Seq<char>) -> Option<Seq<char>> {
    if byte_len(s) < 3 {
        Some("'"@ + s + "'; name must be at over 2 characters long."@)
    } else {
        None
    }
}

/// Why an email address is refused, if it is: it needs an `@`, and a `.`
/// after it.
pub open spec fn email_failure(s: Seq<char>) -> Option<Seq<char>> {
    if !(exists|i: int| 0 <= i < s.len() && #[trigger] s[i] == '@') {
        Some("'"@ + s + "'; Email addresses need an @"@)
    } else if !(exists|i: int, j: int| 0 <= i < j < s.len() && #[trigger] s[i] == '@' && #[trigger] s[j] == '.') {
        Some("'"@ + s + "'; Email addresses need a domain"@)
    } else {
        None
    }
}

fn byte_count(s: &str) -> (r: usize)
    ensures
        r == byte_len(s@),
{
    s.as_bytes().len()
}

impl User {
    /// A not yet persisted user, created at the given time (nanoseconds since
    /// the Unix epoch). The username is stored in lower case.
    pub fn new(username: &str, real_name: &str, email: &str, admin: bool, created_at: i128) -> (r: Result<Self, ARPAError>)
        ensures
            username_failure(username@) matches Some(m) ==> (r matches Err(ARPAError::MalformedInput(e)) && e@ == m),
            username_failure(username@) is None ==> (real_name_failure(real_name@) matches Some(m) ==> (r matches Err(
                ARPAError::MalformedInput(e),
            ) && e@ == m)),
            username_failure(username@) is None && real_name_failure(real_name@) is None ==> (email_failure(email@) matches Some(m)
                ==> (r matches Err(ARPAError::MalformedInput(e)) && e@ == m)),
            username_failure(username@) is None && real_name_failure(real_name@) is None && email_failure(email@) is None
                ==> (r matches Ok(u) && u.id == 0 && u.username@ == ascii_lower(username@) && u.real_name@ == real_name@
                && u.email@ == email@ && u.is_admin == admin && u.created_at == created_at),
    {
        let username = match Self::validate_username(username) {
            Ok(u) => u,
            Err(e) => return Err(e),
        };
        let real_name = match Self::validate_name(real_name) {
            Ok(n) => n,
            Err(e) => return Err(e),
        };
        let email = match Self::validate_email(email) {
            Ok(m) => m,
            Err(e) => return Err(e),
        };
        Ok(User { id: 0, username, real_name, email, is_admin: admin, created_at })
    }

    /// When the user was created, in nanoseconds since the Unix epoch (UTC).
    pub fn created_at(&self) -> (r: i128)
        ensures
            r == self.created_at,
    {
        self.created_at
    }

    /// Checks a username and gives it in lower case.
    pub fn validate_username(name: &str) -> (r: Result<String, ARPAError>)
        ensures
            username_failure(name@) matches Some(m) ==> (r matches Err(ARPAError::MalformedInput(e)) && e@ == m),
            username_failure(name@) is None ==> (r matches Ok(u) && u@ == ascii_lower(name@)),
    {
        let len = byte_count(name);
        if len > 12 || len < 3 {
            return Err(ARPAError::MalformedInput(join3("'", name, "'; username must be 3--12 characters long.")));
        }
        if !name.is_ascii() {
            return Err(ARPAError::MalformedInput(join3("'", name, "'; username must be only ASCII.")));
        }
        let n = name.unicode_len();
        let mut i: usize = 0;
        while i < n
            invariant
                n == name@.len(),
                i <= n,
                3 <= byte_len(name@) <= 12,
                vstd::utf8::is_ascii_chars(name@),
                forall|j: int| 0 <= j < i ==> !ascii_white_space(#[trigger] name@[j]),
            decreases n - i,
        {
            let c = name.get_char(i);
            if c == ' ' || c == '\t' || c == '\n' || c == '\u{c}' || c == '\r' {
                assert(ascii_white_space(name@[i as int]));
                return Err(ARPAError::MalformedInput(join3("'", name, "'; username cannot contain whitespace.")));
            }
            i = i + 1;
        }
        Ok(to_ascii_lowercase(name))
    }

    /// Checks a real name: at least three bytes.
    pub fn validate_name(name: &str) -> (r: Result<String, ARPAError>)
        ensures
            real_name_failure(name@) matches Some(m) ==> (r matches Err(ARPAError::MalformedInput(e)) && e@ == m),
            real_name_failure(name@) is None ==> (r matches Ok(u) && u@ == name@),
    {
        if byte_count(name) < 3 {
            return Err(ARPAError::MalformedInput(join3("'", name, "'; name must be at over 2 characters long.")));
        }
        Ok(String::from_str(name))
    }

    /// Some very basic email checking: an `@`, and a `.` after it.
    pub fn validate_email(email: &str) -> (r: Result<String, ARPAError>)
        ensures
            email_failure(email@) matches Some(m) ==> (r matches Err(ARPAError::MalformedInput(e)) && e@ == m),
            email_failure(email@) is None ==> (r matches Ok(u) && u@ == email@),
    {
        let n = email.unicode_len();
        let mut at: usize = 0;
        while at < n && email.get_char(at) != '@'
            invariant
                n == email@.len(),
                at <= n,
                forall|j: int| 0 <= j < at ==> #[trigger] email@[j] != '@',
            decreases n - at,
        {
            at = at + 1;
        }
        if at == n {
            return Err(ARPAError::MalformedInput(join3("'", email, "'; Email addresses need an @")));
        }
        assert(email@[at as int] == '@');
        let mut k: usize = at + 1;
        while k < n && email.get_char(k) != '.'
            invariant
                n == email@.len(),
                at < k <= n,
                forall|j: int| at < j < k ==> #[trigger] email@[j] != '.',
            decreases n - k,
        {
            k = k + 1;
        }
        if k == n {
            assert forall|i: int, j: int| 0 <= i < j < n && #[trigger] email@[i] == '@' implies #[trigger] email@[j] != '.' by {
                assert(i >= at);
            }
            return Err(ARPAError::MalformedInput(join3("'", email, "'; Email addresses need a domain")));
        }
        assert(email@[k as int] == '.');
        Ok(String::from_str(email))
    }
}

impl TableItem for User {
    open spec fn spec_table() -> Table {
        Table::Users
    }

    open spec fn spec_columns() -> Seq<Seq<char>> {
        seq!["username"@, "real_name"@, "email"@, "is_admin"@, "created_at"@]
    }

    open spec fn spec_unique() -> Seq<int> {
        seq![0int, 2int]
    }

    open spec fn spec_id(&self) -> i32 {
        self.id
    }

    open spec fn spec_row(&self) -> Seq<Cell> {
        seq![
            Cell::Text(self.username@),
            Cell::Text(self.real_name@),
            Cell::Text(self.email@),
            Cell::Bool(self.is_admin),
            Cell::Timestamp(self.created_at),
        ]
    }

    open spec fn spec_decodable(row: Seq<Cell>) -> bool {
        &&& row.len() == 5
        &&& row[0] is Text
        &&& row[1] is Text
        &&& row[2] is Text
        &&& row[3] is Bool
        &&& row[4] is Timestamp
    }

    fn table() -> (r: Table) {
        Table::Users
    }

    fn id(&self) -> (r: i32) {
        self.id
    }

    fn insert_columns() -> (r: Vec<&'static str>) {
        let r = vec!["username", "real_name", "email", "is_admin", "created_at"];
        assert(crate::table::column_names(r@) =~= Self::spec_columns());
        r
    }

    fn unique_columns() -> (r: Vec<usize>) {
        vec![0, 2]
    }

    fn insert_values(&self) -> (r: Vec<Value>) {
        let r = vec![
            Value::Text(self.username.clone()),
            Value::Text(self.real_name.clone()),
            Value::Text(self.email.clone()),
            Value::Bool(self.is_admin),
            Value::Timestamp(self.created_at),
        ];
        assert(cells(r@) =~= self.spec_row());
        r
    }

    fn from_row(id: i32, row: &Vec<Value>) -> (r: Option<Self>) {
        if row.len() != 5 {
            return None;
        }
        let username = match get_text(row, 0) {
            Some(v) => v,
            None => return None,
        };
        let real_name = match get_text(row, 1) {
            Some(v) => v,
            None => return None,
        };
        let email = match get_text(row, 2) {
            Some(v) => v,
            None => return None,
        };
        let is_admin = match get_bool(row, 3) {
            Some(v) => v,
            None => return None,
        };
        let created_at = match get_timestamp(row, 4) {
            Some(v) => v,
            None => return None,
        };
        let e = User { id, username, real_name, email, is_admin, created_at };
        assert(e.spec_row() =~= cells(row@));
        Some(e)
    }

    proof fn lemma_shape(&self) {
    }
}

} // verus!
