//! The header of a raw observation file, as the header tool prints it.
use vstd::prelude::*;
use crate::config::Config;
use crate::conveniences::{float_text, is_float_text, parse, Parse};
use crate::data_types::pulsar_meta::{check_dec, check_ra, dec_parses, ra_parses};
use crate::error::ARPAError;
use crate::text::{lower_of, split_whitespace, to_lowercase, to_uppercase, upper_of, views, words_of};

verus! {

/// The header of a raw file. Floating-point values are kept as the text the
/// tool printed, checked to read as numbers.
#[derive(Debug, Clone)]
pub struct RawFileHeader {
    /// The file name, without its directory.
    pub filename: String,
    pub bin_count: u32,
    pub channel_count: u32,
    pub polarization_count: u8,
    pub sub_count: u32,
    pub object_type: String,
    pub telescope: String,
    pub psr_name: String,
    /// Right ascension, `HH:MM:SS.F*`.
    pub ra: String,
    /// Declination, `(+|-)DD:MM:SS.F*`.
    pub dec: String,
    pub frequency: String,
    pub bw: String,
    pub dm: String,
    pub rm: String,
    pub scale: String,
    pub state: String,
    pub length: String,
    pub receiver: String,
    pub basis: String,
    pub backend: String,
    /// The date, as a modified Julian day.
    pub date: String,
}

/// Whether the text parses as a modified Julian day with psrutils.
pub uninterp spec fn mjd_parses(s: Seq<char>) -> bool;

/// Relies on `psrutils::data_types::Mjd::from_str`: whether the text is a
/// modified Julian day, and the error it gives if not.
#[verifier::external_body]
fn check_mjd(s: &str) -> (r: Result<(), psrutils::error::PsruError>)
    ensures
        r is Ok <==> mjd_parses(s@),
{
    match <psrutils::data_types::Mjd as std::str::FromStr>::from_str(s) {
        Ok(_) => Ok(()),
        Err(e) => Err(e),
    }
}

/// The header keys asked of the tool, in the order of the header's fields.
pub open spec fn spec_header_keys() -> Seq<Seq<char>> {
    seq![
        "nbin"@, "nchan"@, "npol"@, "nsub"@, "type"@, "telescop"@, "name"@, "dec"@, "ra"@,
        "freq"@, "bw"@, "dm"@, "rm"@, "scale"@, "state"@, "length"@, "rcvr"@, "basis"@,
        "backend"@, "mjd"@,
    ]
}

/// The header keys asked of the tool.
pub fn header_keys() -> (r: Vec<&'static str>)
    ensures
        crate::table::column_names(r@) == spec_header_keys(),
{
    let r = vec![
        "nbin", "nchan", "npol", "nsub", "type", "telescop", "name", "dec", "ra", "freq", "bw",
        "dm", "rm", "scale", "state", "length", "rcvr", "basis", "backend", "mjd",
    ];
    assert(crate::table::column_names(r@) =~= spec_header_keys());
    r
}

/// The keys joined by commas.
pub open spec fn comma_joined(keys: Seq<Seq<char>>) -> Seq<char>
    decreases keys.len(),
{
    if keys.len() == 0 {
        Seq::empty()
    } else if keys.len() == 1 {
        keys[0]
    } else {
        comma_joined(keys.drop_last()) + ","@ + keys.last()
    }
}

/// The arguments of the header tool: no header line, the keys as columns,
/// then the file.
pub fn items_args(path: &str, keys: &Vec<&'static str>) -> (r: Vec<String>)
    ensures
        r@.len() == 4,
        r@[0]@ == "-n"@,
        r@[1]@ == "-c"@,
        r@[2]@ == comma_joined(crate::table::column_names(keys@)),
        r@[3]@ == path@,
{
    let mut joined = String::new();
    let mut i: usize = 0;
    while i < keys.len()
        invariant
            i <= keys@.len(),
            joined@ == comma_joined(crate::table::column_names(keys@.take(i as int))),
        decreases keys@.len() - i,
    {
        let ghost before = keys@.take(i as int);
        if i > 0 {
            joined.append(",");
        }
        joined.append(keys[i]);
        i = i + 1;
        proof {
            let names = crate::table::column_names(keys@.take(i as int));
            assert(names.drop_last() =~= crate::table::column_names(before));
            if i == 1 {
                assert(joined@ =~= names[0]);
            }
        }
    }
    assert(keys@.take(keys@.len() as int) =~= keys@);
    vec![String::from_str("-n"), String::from_str("-c"), joined, String::from_str(path)]
}

/// The values the header tool printed: its output split on whitespace, the
/// file's name first and then one value per key.
pub fn get_items(output: &str, n_keys: usize) -> (r: Result<Vec<&str>, ARPAError>)
    requires
        n_keys < usize::MAX,
    ensures
        words_of(output@).len() == n_keys + 1 ==> (r matches Ok(v) && views(v@) == words_of(output@)),
        words_of(output@).len() != n_keys + 1 ==> (r matches Err(ARPAError::VapKeyCount(a, b))
            && a == n_keys + 1 && b == words_of(output@).len()),
{
    let values = split_whitespace(output);
    if values.len() != n_keys + 1 {
        return Err(ARPAError::VapKeyCount(n_keys + 1, values.len()));
    }
    Ok(values)
}

/// The part of a path after its last `/`.
pub open spec fn file_name_of(path: Seq<char>) -> Seq<char>
    decreases path.len(),
{
    if path.len() == 0 {
        path
    } else if path.last() == '/' {
        Seq::empty()
    } else {
        file_name_of(path.drop_last()).push(path.last())
    }
}

/// The part of a path after its last `/`, or the whole path.
pub fn file_name(path: &str) -> (r: String)
    ensures
        r@ == file_name_of(path@),
{
    let n = path.unicode_len();
    let mut start: usize = n;
    assert(path@.take(n as int) =~= path@);
    assert(path@.subrange(n as int, n as int) =~= Seq::<char>::empty());
    while start > 0
        invariant
            n == path@.len(),
            start <= n,
            file_name_of(path@) == file_name_of(path@.take(start as int)) + path@.subrange(start as int, n as int),
        ensures
            start <= n,
            file_name_of(path@) == file_name_of(path@.take(start as int)) + path@.subrange(start as int, n as int),
            start == 0 || path@[start - 1] == '/',
        decreases start,
    {
        let c = path.get_char(start - 1);
        let ghost pre = path@.take(start as int);
        assert(pre.drop_last() =~= path@.take(start - 1));
        if c == '/' {
            break;
        }
        start = start - 1;
        assert(path@.subrange(start as int, n as int) =~= seq![c] + path@.subrange(start + 1, n as int));
        assert(file_name_of(pre) == file_name_of(path@.take(start as int)).push(c));
        assert(file_name_of(path@.take(start as int)).push(c) + path@.subrange(start + 1, n as int)
            =~= file_name_of(path@.take(start as int)) + path@.subrange(start as int, n as int));
    }
    if start == 0 {
        assert(path@.take(0) =~= Seq::<char>::empty());
    } else {
        assert(path@.take(start as int).last() == '/');
    }
    assert(file_name_of(path@.take(start as int)) =~= Seq::<char>::empty());
    let r = path.substring_char(start, n);
    assert(r@ =~= file_name_of(path@));
    String::from_str(r)
}

/// Whether the values the header tool printed read as a header: integers
/// where the header holds integers, numbers, coordinates and a date where it
/// holds those.
pub open spec fn header_values_read(v: Seq<Seq<char>>) -> bool {
    &&& v.len() == 21
    &&& u32::spec_parse(v[1]) is Some
    &&& u32::spec_parse(v[2]) is Some
    &&& u8::spec_parse(v[3]) is Some
    &&& u32::spec_parse(v[4]) is Some
    &&& dec_parses(v[8])
    &&& ra_parses(v[9])
    &&& float_text(v[10])
    &&& float_text(v[11])
    &&& float_text(v[12])
    &&& float_text(v[13])
    &&& float_text(v[16])
    &&& mjd_parses(v[20])
}

/// Whether a header holds the values the tool printed for a file.
pub open spec fn header_holds(h: RawFileHeader, path: Seq<char>, v: Seq<Seq<char>>) -> bool {
    &&& h.filename@ == file_name_of(path)
    &&& Some(h.bin_count) == u32::spec_parse(v[1])
    &&& Some(h.channel_count) == u32::spec_parse(v[2])
    &&& Some(h.polarization_count) == u8::spec_parse(v[3])
    &&& Some(h.sub_count) == u32::spec_parse(v[4])
    &&& h.object_type@ == v[5]
    &&& h.telescope@ == v[6]
    &&& h.psr_name@ == v[7]
    &&& h.dec@ == v[8]
    &&& h.ra@ == v[9]
    &&& h.frequency@ == v[10]
    &&& h.bw@ == v[11]
    &&& h.dm@ == v[12]
    &&& h.rm@ == v[13]
    &&& h.scale@ == v[14]
    &&& h.state@ == v[15]
    &&& h.length@ == v[16]
    &&& h.receiver@ == v[17]
    &&& h.basis@ == v[18]
    &&& h.backend@ == v[19]
    &&& h.date@ == v[20]
}

fn float_field(text: &str) -> (r: Result<String, ARPAError>)
    ensures
        float_text(text@) <==> r is Ok,
        r matches Ok(s) ==> s@ == text@,
{
    if is_float_text(text) {
        Ok(String::from_str(text))
    } else {
        Err(ARPAError::ParseFailed(String::from_str(text), "f32"))
    }
}

impl RawFileHeader {
    /// The values the header tool printed for `n_keys` keys: the file's name
    /// first, then one value per key.
    pub fn get_items(output: &str, n_keys: usize) -> (r: Result<Vec<&str>, ARPAError>)
        requires
            n_keys < usize::MAX,
        ensures
            words_of(output@).len() == n_keys + 1 ==> (r matches Ok(v) && views(v@) == words_of(output@)),
            words_of(output@).len() != n_keys + 1 ==> (r matches Err(ARPAError::VapKeyCount(a, b))
                && a == n_keys + 1 && b == words_of(output@).len()),
    {
        get_items(output, n_keys)
    }

    /// Reads the header of a file from what the header tool printed for the
    /// keys of `header_keys`.
    pub fn get(file_path: &str, output: &str) -> (r: Result<Self, ARPAError>)
        ensures
            r is Ok <==> header_values_read(words_of(output@)),
            words_of(output@).len() != 21 ==> (r matches Err(ARPAError::VapKeyCount(a, b)) && a == 21
                && b == words_of(output@).len()),
            r matches Ok(h) ==> header_holds(h, file_path@, words_of(output@)),
    {
        let filename = file_name(file_path);
        let values = match get_items(output, 20) {
            Ok(v) => v,
            Err(e) => return Err(e),
        };
        let ghost v = views(values@);
        assert(v.len() == 21 ==> v[1] == values@[1]@ && v[2] == values@[2]@ && v[3] == values@[3]@ && v[4] == values@[4]@);
        let bin_count: u32 = match parse(values[1]) { Ok(x) => x, Err(e) => return Err(e) };
        let channel_count: u32 = match parse(values[2]) { Ok(x) => x, Err(e) => return Err(e) };
        let polarization_count: u8 = match parse(values[3]) { Ok(x) => x, Err(e) => return Err(e) };
        let sub_count: u32 = match parse(values[4]) { Ok(x) => x, Err(e) => return Err(e) };
        assert(v[8] == values@[8]@ && v[9] == values@[9]@ && v[10] == values@[10]@ && v[11] == values@[11]@);
        assert(v[12] == values@[12]@ && v[13] == values@[13]@ && v[16] == values@[16]@ && v[20] == values@[20]@);
        if let Err(e) = check_dec(values[8]) {
            return Err(ARPAError::PSRUtils(e));
        }
        if let Err(e) = check_ra(values[9]) {
            return Err(ARPAError::PSRUtils(e));
        }
        let frequency = match float_field(values[10]) { Ok(x) => x, Err(e) => return Err(e) };
        let bw = match float_field(values[11]) { Ok(x) => x, Err(e) => return Err(e) };
        let dm = match float_field(values[12]) { Ok(x) => x, Err(e) => return Err(e) };
        let rm = match float_field(values[13]) { Ok(x) => x, Err(e) => return Err(e) };
        let length = match float_field(values[16]) { Ok(x) => x, Err(e) => return Err(e) };
        if let Err(e) = check_mjd(values[20]) {
            return Err(ARPAError::PSRUtils(e));
        }
        let h = RawFileHeader {
            filename,
            bin_count,
            channel_count,
            polarization_count,
            sub_count,
            object_type: String::from_str(values[5]),
            telescope: String::from_str(values[6]),
            psr_name: String::from_str(values[7]),
            dec: String::from_str(values[8]),
            ra: String::from_str(values[9]),
            frequency,
            bw,
            dm,
            rm,
            scale: String::from_str(values[14]),
            state: String::from_str(values[15]),
            length,
            receiver: String::from_str(values[17]),
            basis: String::from_str(values[18]),
            backend: String::from_str(values[19]),
            date: String::from_str(values[20]),
        };
        Ok(h)
    }

    /// The directory a file with this header is archived in:
    /// `{storage}/{PULSAR}/{telescope}/{receiver}/{backend}`.
    pub fn get_intended_directory(&self, config: &Config) -> (r: String)
        ensures
            r@ == intended_directory(config.paths.rawfile_storage@, self.psr_name@, self.telescope@, self.receiver@, self.backend@),
    {
        let mut r = config.paths.rawfile_storage.clone();
        r.append("/");
        r.append(to_uppercase(self.psr_name.as_str()).as_str());
        r.append("/");
        r.append(to_lowercase(self.telescope.as_str()).as_str());
        r.append("/");
        r.append(to_lowercase(self.receiver.as_str()).as_str());
        r.append("/");
        r.append(to_lowercase(self.backend.as_str()).as_str());
        r
    }
}

/// `{storage}/{PULSAR}/{telescope}/{receiver}/{backend}`, with the pulsar in
/// upper case and the rest in lower case.
pub open spec fn intended_directory(
    storage: Seq<char>,
    pulsar: Seq<char>,
    telescope: Seq<char>,
    receiver: Seq<char>,
    backend: Seq<char>,
) -> Seq<char> {
    storage + "/"@ + upper_of(pulsar) + "/"@ + lower_of(telescope) + "/"@ + lower_of(receiver) + "/"@
        + lower_of(backend)
}

} // verus!
