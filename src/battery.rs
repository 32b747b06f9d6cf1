//! Battery state and the interpretation of what the power-supply files hold.
use crate::text::same_text;
use vstd::prelude::*;

verus! {

/// Charging state of the battery.
#[derive(PartialEq, Eq, Structural, Clone, Copy, Debug)]
pub enum Status {
    Charging,
    NotCharging,
    Discharging,
    Full,
}

/// The state that a status text names, if any.
pub open spec fn status_of(s: Seq<char>) -> Option<Status> {
    if s == "charging"@ || s == "Charging"@ {
        Some(Status::Charging)
    } else if s == "not charging"@ || s == "Not charging"@ {
        Some(Status::NotCharging)
    } else if s == "discharging"@ || s == "Discharging"@ {
        Some(Status::Discharging)
    } else if s == "full"@ || s == "Full"@ {
        Some(Status::Full)
    } else {
        None
    }
}

/// A status text that names no known state.
#[derive(Debug)]
pub struct ParseStatusError {
    pub s: String,
}

impl ParseStatusError {
    /// Human-readable description of the error.
    pub fn message(&self) -> (r: String)
        ensures
            r@ == "Error parsing battery status. Unknown status `"@ + self.s@ + "`"@,
    {
        let mut r = String::from_str("Error parsing battery status. Unknown status `");
        r.append(self.s.as_str());
        r.append("`");
        r
    }
}

impl Status {
    /// Reads a status name, in lower case or with a capital first letter.
    pub fn parse(s: &str) -> (r: Result<Status, ParseStatusError>)
        ensures
            match status_of(s@) {
                Some(st) => r == Ok::<Status, ParseStatusError>(st),
                None => r is Err && r->Err_0.s@ == s@,
            },
    {
        if same_text(s, "charging") || same_text(s, "Charging") {
            Ok(Status::Charging)
        } else if same_text(s, "not charging") || same_text(s, "Not charging") {
            Ok(Status::NotCharging)
        } else if same_text(s, "discharging") || same_text(s, "Discharging") {
            Ok(Status::Discharging)
        } else if same_text(s, "full") || same_text(s, "Full") {
            Ok(Status::Full)
        } else {
            Err(ParseStatusError { s: s.to_owned() })
        }
    }
}

impl std::str::FromStr for Status {
    type Err = ParseStatusError;

    fn from_str(s: &str) -> Result<Status, ParseStatusError> {
        Status::parse(s)
    }
}

/// What `str::trim` leaves of a text.
pub uninterp spec fn trimmed(s: Seq<char>) -> Seq<char>;

/// Relies on `str::trim`: leading and trailing Unicode white space removed; the
/// result depends on the text alone.
#[verifier::external_body]
fn trim(s: &str) -> (r: &str)
    ensures
        r@ == trimmed(s@),
{
    s.trim()
}

/// Why the battery status could not be obtained.
#[derive(Debug)]
pub enum StatusError {
    Read(std::io::Error),
    Parse(ParseStatusError),
}

/// Interprets the contents of the status file: the trimmed text names a state.
pub fn status_from_text(text: &str) -> (r: Result<Status, StatusError>)
    ensures
        match status_of(trimmed(text@)) {
            Some(st) => r == Ok::<Status, StatusError>(st),
            None => r matches Err(StatusError::Parse(e)) && e.s@ == trimmed(text@),
        },
{
    match Status::parse(trim(text)) {
        Ok(s) => Ok(s),
        Err(e) => Err(StatusError::Parse(e)),
    }
}

/// Declares `core::num::ParseIntError`, carried opaque in percentage failures.
#[verifier::external_type_specification]
#[verifier::external_body]
pub struct ExParseIntError(core::num::ParseIntError);

/// Whether `c` is one of the ASCII digits `0` to `9`.
pub open spec fn is_digit(c: char) -> bool {
    48 <= (c as u32) <= 57
}

/// Value of a string of ASCII digits.
pub open spec fn digits_value(s: Seq<char>) -> int
    decreases s.len(),
{
    if s.len() == 0 {
        0
    } else {
        digits_value(s.drop_last()) * 10 + (s.last() as u32 - 48)
    }
}

/// Value of a decimal integer text: an optional `+` or `-`, then one or more
/// ASCII digits.
pub open spec fn decimal_value(s: Seq<char>) -> Option<int> {
    let signed = s.len() > 0 && (s[0] == '-' || s[0] == '+');
    let body = if signed {
        s.subrange(1, s.len() as int)
    } else {
        s
    };
    if body.len() > 0 && forall|i: int| 0 <= i < body.len() ==> is_digit(#[trigger] body[i]) {
        Some(
            if s[0] == '-' {
                -digits_value(body)
            } else {
                digits_value(body)
            },
        )
    } else {
        None
    }
}

/// Relies on `i64::from_str`: an optional sign then ASCII digits, whose value
/// fits in an `i64`; anything else is an error.
#[verifier::external_body]
fn parse_i64(s: &str) -> (r: Result<i64, core::num::ParseIntError>)
    ensures
        r is Ok <==> (decimal_value(s@) matches Some(v) && i64::MIN <= v <= i64::MAX),
        r matches Ok(v) ==> decimal_value(s@) == Some(v as int),
{
    s.parse::<i64>()
}

/// Why the battery percentage could not be obtained.
#[derive(Debug)]
pub enum PercentageError {
    Read(std::io::Error),
    Parse(core::num::ParseIntError),
}

/// Reads a percentage: a decimal integer that fits in an `i64`.
pub fn parse_percentage(s: &str) -> (r: Result<i64, PercentageError>)
    ensures
        r is Ok <==> (decimal_value(s@) matches Some(v) && i64::MIN <= v <= i64::MAX),
        r matches Ok(v) ==> decimal_value(s@) == Some(v as int),
        r is Err ==> r matches Err(PercentageError::Parse(_)),
{
    match parse_i64(s) {
        Ok(v) => Ok(v),
        Err(e) => Err(PercentageError::Parse(e)),
    }
}

/// Interprets the contents of the capacity file: the trimmed text is a decimal
/// integer.
pub fn percentage_from_text(text: &str) -> (r: Result<i64, PercentageError>)
    ensures
        r is Ok <==> (decimal_value(trimmed(text@)) matches Some(v) && i64::MIN <= v <= i64::MAX),
        r matches Ok(v) ==> decimal_value(trimmed(text@)) == Some(v as int),
        r is Err ==> r matches Err(PercentageError::Parse(_)),
{
    parse_percentage(trim(text))
}

/// One reading of the battery.
#[derive(PartialEq, Eq, Structural, Clone, Copy, Debug)]
pub struct Reading {
    pub percent: i64,
    pub status: Status,
}

/// Which part of a reading failed.
#[derive(Debug)]
pub enum ReadingError {
    Both(PercentageError, StatusError),
    Percentage(PercentageError),
    Status(StatusError),
}

/// Joins the two queries of a reading; a reading with any failed part is not
/// evaluated.
pub fn combine_reading(
    percentage: Result<i64, PercentageError>,
    status: Result<Status, StatusError>,
) -> (r: Result<Reading, ReadingError>)
    ensures
        match (percentage, status) {
            (Ok(p), Ok(s)) => r == Ok::<Reading, ReadingError>(Reading { percent: p, status: s }),
            (Err(ep), Err(es)) => r == Err::<Reading, ReadingError>(ReadingError::Both(ep, es)),
            (Err(ep), Ok(_)) => r == Err::<Reading, ReadingError>(ReadingError::Percentage(ep)),
            (Ok(_), Err(es)) => r == Err::<Reading, ReadingError>(ReadingError::Status(es)),
        },
{
    match (percentage, status) {
        (Ok(p), Ok(s)) => Ok(Reading { percent: p, status: s }),
        (Err(ep), Err(es)) => Err(ReadingError::Both(ep, es)),
        (Err(ep), Ok(_)) => Err(ReadingError::Percentage(ep)),
        (Ok(_), Err(es)) => Err(ReadingError::Status(es)),
    }
}

} // verus!
