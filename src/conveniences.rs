//! Small conveniences: reading integers from text, and readable numbers and
//! durations.
use vstd::prelude::*;
use crate::error::ARPAError;
use crate::text::{decimal, push_char, push_decimal};

verus! {

/// Whether a character is an ASCII decimal digit.
pub open spec fn is_digit(c: char) -> bool {
    '0' <= c <= '9'
}

/// The value of a sequence of decimal digits.
pub open spec fn digits_value(s: Seq<char>) -> nat
    decreases s.len(),
{
    if s.len() == 0 {
        0
    } else {
        digits_value(s.drop_last()) * 10 + ((s.last() as u32) - 48) as nat
    }
}

/// Whether a text starts with a sign that a type with the lower bound `min`
/// accepts: `+` always, `-` where `min` is negative.
pub open spec fn has_sign(s: Seq<char>, min: int) -> bool {
    s.len() > 0 && (s[0] == '+' || (s[0] == '-' && min < 0))
}

/// The text without its accepted sign.
pub open spec fn unsigned_part(s: Seq<char>, min: int) -> Seq<char> {
    if has_sign(s, min) {
        s.drop_first()
    } else {
        s
    }
}

/// Whether every character is a decimal digit.
pub open spec fn all_digits(s: Seq<char>) -> bool {
    forall|i: int| 0 <= i < s.len() ==> is_digit(#[trigger] s[i])
}

/// What `FromStr` reads from a text for an integer type with the given
/// bounds: an optional sign (`-` only where `min` is negative), at least one
/// digit and nothing else, and a value within the bounds.
pub open spec fn int_of_text(s: Seq<char>, min: int, max: int) -> Option<int> {
    let digits = unsigned_part(s, min);
    let v = if has_sign(s, min) && s[0] == '-' {
        -(digits_value(digits) as int)
    } else {
        digits_value(digits) as int
    };
    if digits.len() > 0 && all_digits(digits) && min <= v <= max {
        Some(v)
    } else {
        None
    }
}

proof fn lemma_digits_value_push(s: Seq<char>, c: char)
    ensures
        digits_value(s.push(c)) == digits_value(s) * 10 + ((c as u32) - 48) as nat,
{
    assert(s.push(c).drop_last() =~= s);
}

/// Reads an integer within `[min, max]` from a text, as `FromStr` does for an
/// integer type with these bounds.
fn read_int(text: &str, min: i64, max: i64) -> (r: Option<i64>)
    requires
        min <= 0 <= max,
        -0x1_0000_0000 <= min,
        max <= 0x1_0000_0000,
    ensures
        r matches Some(v) ==> int_of_text(text@, min as int, max as int) == Some(v as int),
        r is None ==> int_of_text(text@, min as int, max as int) is None,
{
    let n = text.unicode_len();
    let ghost s = text@;
    let mut start: usize = 0;
    let mut neg = false;
    if n > 0 {
        let c = text.get_char(0);
        if c == '+' {
            start = 1;
        } else if c == '-' && min < 0 {
            start = 1;
            neg = true;
        }
    }
    let ghost digits = s.subrange(start as int, n as int);
    assert(digits =~= unsigned_part(s, min as int));
    assert(neg == (has_sign(s, min as int) && s[0] == '-'));
    if start >= n {
        return None;
    }
    let bound: u64 = if neg { (-min) as u64 } else { max as u64 };
    let mut v: u64 = 0;
    let mut i: usize = start;
    while i < n
        invariant
            n == s.len(),
            text@ == s,
            start <= i <= n,
            digits == s.subrange(start as int, n as int),
            digits == unsigned_part(s, min as int),
            neg == (has_sign(s, min as int) && s[0] == '-'),
            neg ==> bound == -min,
            !neg ==> bound == max,
            min <= 0 <= max,
            bound <= 0x1_0000_0000,
            v <= bound,
            v as nat == digits_value(s.subrange(start as int, i as int)),
            forall|j: int| start <= j < i ==> is_digit(#[trigger] s[j]),
        decreases n - i,
    {
        let c = text.get_char(i);
        if !('0' <= c && c <= '9') {
            assert(digits[i - start] == c);
            assert(!is_digit(digits[(i - start) as int]));
            return None;
        }
        let d = (c as u32 - 48) as u64;
        proof {
            lemma_digits_value_push(s.subrange(start as int, i as int), c);
            assert(s.subrange(start as int, i + 1) =~= s.subrange(start as int, i as int).push(c));
        }
        v = v * 10 + d;
        i = i + 1;
        if v > bound {
            proof {
                assert(digits.subrange(0, (i - start) as int) =~= s.subrange(start as int, i as int));
                if all_digits(digits) {
                    lemma_digits_prefix_bound(digits, (i - start) as int);
                }
            }
            return None;
        }
    }
    assert(s.subrange(start as int, n as int) =~= digits);
    assert forall|j: int| 0 <= j < digits.len() implies is_digit(#[trigger] digits[j]) by {
        assert(digits[j] == s[j + start]);
    }
    if neg {
        Some(-(v as i64))
    } else {
        Some(v as i64)
    }
}

/// A prefix of a digit sequence never has a larger value than the whole.
proof fn lemma_digits_prefix_bound(s: Seq<char>, k: int)
    requires
        0 <= k <= s.len(),
        all_digits(s),
    ensures
        digits_value(s.subrange(0, k)) <= digits_value(s),
    decreases s.len() - k,
{
    if k < s.len() {
        lemma_digits_prefix_bound(s, k + 1);
        let p = s.subrange(0, k);
        assert(s.subrange(0, k + 1) =~= p.push(s[k]));
        lemma_digits_value_push(p, s[k]);
    } else {
        assert(s.subrange(0, k) =~= s);
    }
}

/// A type whose values can be read from text, with the name used in errors.
pub trait Parse: Sized {
    /// The value a text reads as, if any.
    spec fn spec_parse(s: Seq<char>) -> Option<Self>;

    /// The name of the type, as errors give it.
    spec fn spec_target_name() -> Seq<char>;

    fn target_name() -> (r: &'static str)
        ensures
            r@ == Self::spec_target_name(),
    ;

    fn parse_text(text: &str) -> (r: Option<Self>)
        ensures
            r == Self::spec_parse(text@),
    ;
}

impl Parse for u8 {
    open spec fn spec_parse(s: Seq<char>) -> Option<u8> {
        match int_of_text(s, 0, u8::MAX as int) {
            Some(v) => Some(v as u8),
            None => None,
        }
    }

    open spec fn spec_target_name() -> Seq<char> {
        "u8"@
    }

    fn target_name() -> (r: &'static str) {
        "u8"
    }

    fn parse_text(text: &str) -> (r: Option<u8>) {
        match read_int(text, 0, u8::MAX as i64) {
            Some(v) => Some(v as u8),
            None => None,
        }
    }
}

impl Parse for u16 {
    open spec fn spec_parse(s: Seq<char>) -> Option<u16> {
        match int_of_text(s, 0, u16::MAX as int) {
            Some(v) => Some(v as u16),
            None => None,
        }
    }

    open spec fn spec_target_name() -> Seq<char> {
        "u16"@
    }

    fn target_name() -> (r: &'static str) {
        "u16"
    }

    fn parse_text(text: &str) -> (r: Option<u16>) {
        match read_int(text, 0, u16::MAX as i64) {
            Some(v) => Some(v as u16),
            None => None,
        }
    }
}

impl Parse for u32 {
    open spec fn spec_parse(s: Seq<char>) -> Option<u32> {
        match int_of_text(s, 0, u32::MAX as int) {
            Some(v) => Some(v as u32),
            None => None,
        }
    }

    open spec fn spec_target_name() -> Seq<char> {
        "u32"@
    }

    fn target_name() -> (r: &'static str) {
        "u32"
    }

    fn parse_text(text: &str) -> (r: Option<u32>) {
        match read_int(text, 0, u32::MAX as i64) {
            Some(v) => Some(v as u32),
            None => None,
        }
    }
}

impl Parse for i16 {
    open spec fn spec_parse(s: Seq<char>) -> Option<i16> {
        match int_of_text(s, i16::MIN as int, i16::MAX as int) {
            Some(v) => Some(v as i16),
            None => None,
        }
    }

    open spec fn spec_target_name() -> Seq<char> {
        "i16"@
    }

    fn target_name() -> (r: &'static str) {
        "i16"
    }

    fn parse_text(text: &str) -> (r: Option<i16>) {
        match read_int(text, i16::MIN as i64, i16::MAX as i64) {
            Some(v) => Some(v as i16),
            None => None,
        }
    }
}

impl Parse for i32 {
    open spec fn spec_parse(s: Seq<char>) -> Option<i32> {
        match int_of_text(s, i32::MIN as int, i32::MAX as int) {
            Some(v) => Some(v as i32),
            None => None,
        }
    }

    open spec fn spec_target_name() -> Seq<char> {
        "i32"@
    }

    fn target_name() -> (r: &'static str) {
        "i32"
    }

    fn parse_text(text: &str) -> (r: Option<i32>) {
        match read_int(text, i32::MIN as i64, i32::MAX as i64) {
            Some(v) => Some(v as i32),
            None => None,
        }
    }
}

/// Reads a value from text; failure names the text and the target type.
pub fn parse<T: Parse>(text: &str) -> (r: Result<T, ARPAError>)
    ensures
        T::spec_parse(text@) matches Some(v) ==> r matches Ok(w) && w == v,
        T::spec_parse(text@) is None ==> (r matches Err(ARPAError::ParseFailed(t, n)) && t@ == text@
            && n@ == T::spec_target_name()),
{
    match T::parse_text(text) {
        Some(v) => Ok(v),
        None => Err(ARPAError::ParseFailed(String::from_str(text), T::target_name())),
    }
}

/// A readable duration: microseconds below a millisecond, milliseconds below
/// a second, seconds below a minute, else minutes and seconds.
pub open spec fn elapsed_text(micros: nat) -> Seq<char> {
    if micros < 1000 {
        decimal(micros) + " μs"@
    } else if micros / 1000 < 1000 {
        decimal(micros / 1000) + " ms"@
    } else if micros / 1_000_000 < 60 {
        decimal(micros / 1_000_000) + " s"@
    } else {
        decimal(micros / 60_000_000) + " m "@ + decimal((micros / 1_000_000) % 60) + " s"@
    }
}

/// Forms a readable text from an elapsed time in microseconds.
pub fn display_elapsed_time(micros: u128) -> (r: String)
    ensures
        r@ == elapsed_text(micros as nat),
{
    let mut r = String::new();
    if micros < 1000 {
        push_decimal(&mut r, micros);
        r.append(" μs");
        return r;
    }
    let millis = micros / 1000;
    if millis < 1000 {
        push_decimal(&mut r, millis);
        r.append(" ms");
        return r;
    }
    let seconds = micros / 1_000_000;
    if seconds < 60 {
        push_decimal(&mut r, seconds);
        r.append(" s");
        return r;
    }
    let minutes = seconds / 60;
    assert(minutes == micros / 60_000_000) by {
        vstd::arithmetic::div_mod::lemma_div_denominator(micros as int, 1_000_000, 60);
    }
    push_decimal(&mut r, minutes);
    r.append(" m ");
    push_decimal(&mut r, seconds - 60 * minutes);
    r.append(" s");
    r
}

/// The decimal digits of a number in groups of three, separated by commas.
pub open spec fn grouped(n: nat) -> Seq<char>
    decreases n,
{
    if n < 1000 {
        decimal(n)
    } else {
        grouped(n / 1000) + ","@ + three_digits(n % 1000)
    }
}

/// Exactly three digits, with leading zeros.
pub open spec fn three_digits(n: nat) -> Seq<char> {
    seq![crate::text::digit_char(n / 100), crate::text::digit_char((n / 10) % 10), crate::text::digit_char(n % 10)]
}

fn push_grouped(s: &mut String, n: u64)
    ensures
        final(s)@ == old(s)@ + grouped(n as nat),
    decreases n,
{
    if n < 1000 {
        push_decimal(s, n as u128);
        return;
    }
    let ghost start = s@;
    push_grouped(s, n / 1000);
    s.append(",");
    let m = n % 1000;
    let a = (m / 100) as u8 + 48;
    let b = ((m / 10) % 10) as u8 + 48;
    let c = (m % 10) as u8 + 48;
    push_char(s, a as char);
    push_char(s, b as char);
    push_char(s, c as char);
    assert(three_digits(m as nat) =~= seq![a as char, b as char, c as char]);
    assert(s@ =~= start + grouped(n as nat));
}

/// Forms a text with comma-separated digit triples, as `1,234`.
pub fn comma_separate(value: u64) -> (r: String)
    ensures
        r@ == grouped(value as nat),
{
    let mut r = String::new();
    push_grouped(&mut r, value);
    r
}

/// An exponent marker of a decimal number.
pub open spec fn is_e(c: char) -> bool {
    c == 'e' || c == 'E'
}

/// The position of the first exponent marker, or the length when there is none.
pub open spec fn e_pos(t: Seq<char>) -> nat
    decreases t.len(),
{
    if t.len() == 0 || is_e(t[0]) {
        0
    } else {
        1 + e_pos(t.drop_first())
    }
}

/// The number of characters of a text that satisfy a predicate.
pub open spec fn count_of(t: Seq<char>, p: spec_fn(char) -> bool) -> nat
    decreases t.len(),
{
    if t.len() == 0 {
        0
    } else {
        count_of(t.drop_last(), p) + if p(t.last()) { 1nat } else { 0nat }
    }
}

/// The part of a decimal number before its exponent: digits with at most one
/// `.`, and at least one digit.
pub open spec fn mantissa(m: Seq<char>) -> bool {
    &&& forall|i: int| 0 <= i < m.len() ==> (is_digit(#[trigger] m[i]) || m[i] == '.')
    &&& count_of(m, |c: char| c == '.') <= 1
    &&& count_of(m, |c: char| is_digit(c)) >= 1
}

/// The part of a decimal number after its exponent marker: an optional sign
/// and at least one digit.
pub open spec fn exponent(x: Seq<char>) -> bool {
    let y = if x.len() > 0 && (x[0] == '+' || x[0] == '-') {
        x.drop_first()
    } else {
        x
    };
    y.len() > 0 && all_digits(y)
}

/// The text of a floating-point number as `FromStr` for `f32` and `f64`
/// accepts it: an optional sign, then `inf`, `infinity` or `nan` in any case,
/// or a decimal number with an optional exponent.
pub open spec fn float_text(s: Seq<char>) -> bool {
    let t = if s.len() > 0 && (s[0] == '+' || s[0] == '-') {
        s.drop_first()
    } else {
        s
    };
    let l = crate::text::ascii_lower(t);
    ||| l == "inf"@
    ||| l == "infinity"@
    ||| l == "nan"@
    ||| (mantissa(t.take(e_pos(t) as int)) && (e_pos(t) == t.len() || exponent(
        t.skip(e_pos(t) as int + 1),
    )))
}

proof fn lemma_e_pos(t: Seq<char>, k: int)
    requires
        0 <= k <= t.len(),
        forall|j: int| 0 <= j < k ==> !is_e(#[trigger] t[j]),
        k == t.len() || is_e(t[k]),
    ensures
        e_pos(t) == k,
    decreases k,
{
    if k > 0 {
        assert forall|j: int| 0 <= j < k - 1 implies !is_e(#[trigger] t.drop_first()[j]) by {
            assert(t.drop_first()[j] == t[j + 1]);
        }
        if k - 1 < t.drop_first().len() {
            assert(t.drop_first()[k - 1] == t[k]);
        }
        lemma_e_pos(t.drop_first(), k - 1);
        assert(!is_e(t[0]));
    }
}

/// Whether a text is a decimal number's mantissa.
fn is_mantissa(m: &str) -> (r: bool)
    ensures
        r == mantissa(m@),
{
    let n = m.unicode_len();
    let mut dots: usize = 0;
    let mut digits: usize = 0;
    let mut i: usize = 0;
    while i < n
        invariant
            n == m@.len(),
            i <= n,
            dots as nat == count_of(m@.take(i as int), |c: char| c == '.'),
            digits as nat == count_of(m@.take(i as int), |c: char| is_digit(c)),
            dots <= 1,
            digits <= i,
            forall|j: int| 0 <= j < i ==> (is_digit(#[trigger] m@[j]) || m@[j] == '.'),
        decreases n - i,
    {
        let c = m.get_char(i);
        assert(m@.take(i + 1).drop_last() =~= m@.take(i as int));
        if '0' <= c && c <= '9' {
            digits = digits + 1;
        } else if c == '.' {
            if dots == 1 {
                proof {
                    lemma_count_prefix(m@, i + 1, |c: char| c == '.');
                }
                return false;
            }
            dots = dots + 1;
        } else {
            return false;
        }
        i = i + 1;
    }
    assert(m@.take(n as int) =~= m@);
    digits >= 1
}

/// Counting over a prefix never gives more than over the whole.
proof fn lemma_count_prefix(t: Seq<char>, k: int, p: spec_fn(char) -> bool)
    requires
        0 <= k <= t.len(),
    ensures
        count_of(t.take(k), p) <= count_of(t, p),
    decreases t.len() - k,
{
    if k < t.len() {
        lemma_count_prefix(t, k + 1, p);
        assert(t.take(k + 1).drop_last() =~= t.take(k));
    } else {
        assert(t.take(k) =~= t);
    }
}

/// Whether a text is the part of a decimal number after its exponent marker.
fn is_exponent(x: &str) -> (r: bool)
    ensures
        r == exponent(x@),
{
    let n = x.unicode_len();
    let mut start: usize = 0;
    if n > 0 {
        let c = x.get_char(0);
        if c == '+' || c == '-' {
            start = 1;
        }
    }
    let y = x.substring_char(start, n);
    assert(y@ =~= (if x@.len() > 0 && (x@[0] == '+' || x@[0] == '-') { x@.drop_first() } else { x@ }));
    if y.unicode_len() == 0 {
        return false;
    }
    let m = y.unicode_len();
    let mut i: usize = 0;
    while i < m
        invariant
            m == y@.len(),
            i <= m,
            y@ == (if x@.len() > 0 && (x@[0] == '+' || x@[0] == '-') { x@.drop_first() } else { x@ }),
            forall|j: int| 0 <= j < i ==> is_digit(#[trigger] y@[j]),
        decreases m - i,
    {
        let c = y.get_char(i);
        if !('0' <= c && c <= '9') {
            assert(!is_digit(y@[i as int]));
            return false;
        }
        i = i + 1;
    }
    true
}

/// Whether a text reads as a floating-point number.
pub fn is_float_text(s: &str) -> (r: bool)
    ensures
        r == float_text(s@),
{
    let n = s.unicode_len();
    let mut start: usize = 0;
    if n > 0 {
        let c = s.get_char(0);
        if c == '+' || c == '-' {
            start = 1;
        }
    }
    let t = s.substring_char(start, n);
    assert(t@ =~= (if s@.len() > 0 && (s@[0] == '+' || s@[0] == '-') { s@.drop_first() } else { s@ }));
    let l = crate::text::to_ascii_lowercase(t);
    if crate::text::same_text(l.as_str(), "inf") || crate::text::same_text(l.as_str(), "infinity")
        || crate::text::same_text(l.as_str(), "nan") {
        return true;
    }
    let tn = t.unicode_len();
    let mut k: usize = 0;
    while k < tn
        invariant
            tn == t@.len(),
            k <= tn,
            forall|j: int| 0 <= j < k ==> !is_e(#[trigger] t@[j]),
        ensures
            k <= tn,
            forall|j: int| 0 <= j < k ==> !is_e(#[trigger] t@[j]),
            k == tn || is_e(t@[k as int]),
        decreases tn - k,
    {
        let c = t.get_char(k);
        if c == 'e' || c == 'E' {
            break;
        }
        k = k + 1;
    }
    proof {
        lemma_e_pos(t@, k as int);
    }
    let m = t.substring_char(0, k);
    assert(m@ =~= t@.take(k as int));
    if !is_mantissa(m) {
        return false;
    }
    if k == tn {
        return true;
    }
    let x = t.substring_char(k + 1, tn);
    assert(x@ =~= t@.skip(k + 1));
    is_exponent(x)
}

} // verus!
