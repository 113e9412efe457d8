//! Calendar dates sent as query values.
use crate::json::{field, get_field, FromJson, Json};
use crate::text::push_char;
use vstd::prelude::*;

verus! {

/// A calendar date, sent as `YYYY-MM-DD`.
#[derive(Clone, Copy, Debug, PartialEq, Eq, Structural)]
pub struct Date {
    pub year: u16,
    pub month: u8,
    pub day: u8,
}

/// The character of a decimal digit.
pub open spec fn digit_char(d: nat) -> char {
    if d == 0 { '0' }
    else if d == 1 { '1' }
    else if d == 2 { '2' }
    else if d == 3 { '3' }
    else if d == 4 { '4' }
    else if d == 5 { '5' }
    else if d == 6 { '6' }
    else if d == 7 { '7' }
    else if d == 8 { '8' }
    else { '9' }
}

/// The decimal digits of `n`, with leading zeros up to `width` characters.
pub open spec fn padded(n: nat, width: nat) -> Seq<char>
    decreases n + width,
{
    if n >= 10 || width > 1 {
        padded(n / 10, if width > 0 { (width - 1) as nat } else { 0 }).push(digit_char(n % 10))
    } else {
        seq![digit_char(n)]
    }
}

fn digit(d: u32) -> (r: char)
    requires
        d < 10,
    ensures
        r == digit_char(d as nat),
{
    if d == 0 { '0' }
    else if d == 1 { '1' }
    else if d == 2 { '2' }
    else if d == 3 { '3' }
    else if d == 4 { '4' }
    else if d == 5 { '5' }
    else if d == 6 { '6' }
    else if d == 7 { '7' }
    else if d == 8 { '8' }
    else { '9' }
}

/// Appends the decimal digits of `n`, with leading zeros up to `width` characters.
fn push_padded(out: &mut String, n: u32, width: u32)
    ensures
        final(out)@ == old(out)@ + padded(n as nat, width as nat),
    decreases n + width,
{
    if n >= 10 || width > 1 {
        let w: u32 = if width > 0 { width - 1 } else { 0 };
        push_padded(out, n / 10, w);
    }
    push_char(out, digit(n % 10));
    assert(old(out)@ + padded(n as nat, width as nat) =~= final(out)@);
}

impl Date {
    pub fn new(year: u16, month: u8, day: u8) -> (r: Date)
        ensures
            r == (Date { year, month, day }),
    {
        Date { year, month, day }
    }

    /// The date as the API reads it.
    pub open spec fn text(self) -> Seq<char> {
        padded(self.year as nat, 4) + seq!['-'] + padded(self.month as nat, 2) + seq!['-']
            + padded(self.day as nat, 2)
    }

    /// The date as `YYYY-MM-DD`, each part padded with zeros.
    pub fn to_string(&self) -> (r: String)
        ensures
            r@ == self.text(),
    {
        let mut r = String::new();
        push_padded(&mut r, self.year as u32, 4);
        push_char(&mut r, '-');
        push_padded(&mut r, self.month as u32, 2);
        push_char(&mut r, '-');
        push_padded(&mut r, self.day as u32, 2);
        assert(r@ =~= self.text());
        r
    }
}

/// Whether chrono reads `text` as a date and time in `format`.
pub uninterp spec fn naive_parses(text: Seq<char>, format: Seq<char>) -> bool;

/// Relies on `chrono::NaiveDateTime::parse_from_str`: whether the text is a
/// date and time written in the given format.
#[verifier::external_body]
fn parse_naive(text: &str, format: &str) -> (r: Result<(), String>)
    ensures
        r is Ok <==> naive_parses(text@, format@),
{
    chrono::NaiveDateTime::parse_from_str(text, format).map(|_| ()).map_err(|e| e.to_string())
}

/// A date and time as the API writes it, such as `2019-10-02T14:30:00`.
/// The API writes Eastern Standard Time, five hours west of UTC, all year.
#[derive(Clone, Debug)]
pub struct Timestamp {
    pub text: String,
}

/// Whether `s` is a timestamp as the API writes it.
pub open spec fn is_timestamp(s: Seq<char>) -> bool {
    naive_parses(s, "%Y-%m-%dT%H:%M:%S"@)
}

impl Timestamp {
    /// The offset of the API's timestamps west of UTC, in seconds.
    pub fn offset_west_seconds() -> (r: i32)
        ensures
            r == 5 * 3600,
    {
        5 * 3600
    }

    /// Reads a timestamp; text in any other form is refused.
    pub fn from_str(s: &str) -> (r: Result<Timestamp, String>)
        ensures
            r is Ok <==> is_timestamp(s@),
            r is Ok ==> r->Ok_0.text@ == s@,
    {
        match parse_naive(s, "%Y-%m-%dT%H:%M:%S") {
            Ok(()) => Ok(Timestamp { text: String::from_str(s) }),
            Err(e) => Err(e),
        }
    }
}

impl FromJson for Timestamp {
    open spec fn accepts(j: Json) -> bool {
        j is Str && is_timestamp(j->Str_0@)
    }

    open spec fn read_from(self, j: Json) -> bool {
        j is Str && self.text@ == j->Str_0@
    }

    fn from_json(j: &Json) -> (r: Result<Timestamp, String>) {
        match j {
            Json::Str(s) => Timestamp::from_str(s.as_str()),
            _ => Err(String::from_str("invalid type: expected a timestamp string")),
        }
    }
}

/// Whether `x` is what a lenient timestamp field reads as: the timestamp when
/// the field's string is one, and `None` for any other string.
pub open spec fn lenient_timestamp_read(x: Option<Timestamp>, j: Json, key: Seq<char>) -> bool {
    match field(j, key) {
        Some(v) => if Timestamp::accepts(v) {
            x is Some && x->Some_0.read_from(v)
        } else {
            x is None
        },
        None => false,
    }
}

/// Reads the required string field `key` as a timestamp, reading a string in
/// any other form as `None`.
pub fn timestamp_or_none(j: &Json, key: &str) -> (r: Result<Option<Timestamp>, String>)
    ensures
        r is Ok <==> (field(*j, key@) matches Some(v) && v is Str),
        r is Ok ==> lenient_timestamp_read(r->Ok_0, *j, key@),
{
    match get_field(j, key) {
        Some(Json::Str(s)) => match Timestamp::from_str(s.as_str()) {
            Ok(t) => Ok(Some(t)),
            Err(_) => Ok(None),
        },
        Some(_) => Err(String::from_str("invalid type: expected a string")),
        None => {
            let mut m = String::from_str("missing field `");
            m.append(key);
            m.append("`");
            Err(m)
        },
    }
}

} // verus!
