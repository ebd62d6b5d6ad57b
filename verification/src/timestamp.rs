//! The instant of a reading, from the date and time that the sensor writes.
//!
//! The sensor writes the date with `/` between its parts and the time zone
//! in lower case. The text is brought into the form of RFC 3339 before it
//! is parsed.
use crate::measurement::SchemaError;
use vstd::prelude::*;
use vstd::string::StrSliceExecFns;
use vstd::string::StringExecFns;

verus! {

/// An instant on the UTC time line.
#[derive(Clone, Copy, Debug, PartialEq, Eq, Structural)]
pub struct Timestamp {
    /// Whole seconds since 1970-01-01T00:00:00Z, leap seconds not counted.
    pub secs: i64,
    /// Nanoseconds past that second. Within a leap second the count is a
    /// thousand million or more.
    pub nanos: u32,
}

/// The upper-case form of `text`, as `str::to_uppercase` gives it.
pub uninterp spec fn uppercase(text: Seq<char>) -> Seq<char>;

/// The instant that `chrono` reads from `text` as an RFC 3339 date and
/// time, or `None` where it does not accept `text`.
pub uninterp spec fn rfc3339_instant(text: Seq<char>) -> Option<Timestamp>;

/// `str::to_uppercase`: the upper-case equivalent of `text` as a new string.
#[verifier::external_body]
fn to_uppercase(text: &str) -> (upper: String)
    ensures
        upper@ == uppercase(text@),
{
    text.to_uppercase()
}

/// `chrono::DateTime::parse_from_rfc3339`, with the instant read off the
/// result by `timestamp` and `timestamp_subsec_nanos`: seconds since the
/// Unix epoch and nanoseconds past the second. `None` stands for any error
/// of the parser.
#[verifier::external_body]
fn parse_rfc3339(text: &str) -> (instant: Option<Timestamp>)
    ensures
        instant == rfc3339_instant(text@),
{
    match chrono::DateTime::parse_from_rfc3339(text) {
        Ok(parsed) => Some(
            Timestamp { secs: parsed.timestamp(), nanos: parsed.timestamp_subsec_nanos() },
        ),
        Err(_) => None,
    }
}

/// `c`, with a dash for a slash.
pub open spec fn slash_to_dash(c: char) -> char {
    if c == '/' {
        '-'
    } else {
        c
    }
}

/// `text` with every slash replaced by a dash.
pub open spec fn dashed(text: Seq<char>) -> Seq<char> {
    text.map_values(|c: char| slash_to_dash(c))
}

/// The text of a date and time in the form that is parsed: in upper case,
/// with dashes for slashes.
pub open spec fn normalized(text: Seq<char>) -> Seq<char> {
    dashed(uppercase(text))
}

/// The instant that `text` stands for once it is normalized, and
/// `InvalidTimestamp` where the normalized text is no RFC 3339 date and
/// time.
pub open spec fn timestamp_of(text: Seq<char>) -> Result<Timestamp, SchemaError> {
    match rfc3339_instant(normalized(text)) {
        Some(instant) => Ok(instant),
        None => Err(SchemaError::InvalidTimestamp),
    }
}

/// `replace_slashes` for text in ASCII, in one pass over its bytes.
fn replace_slashes_ascii(text: &str) -> (out: String)
    requires
        text.is_ascii(),
    ensures
        out@ == dashed(text@),
{
    let n = text.unicode_len();
    let mut out = String::new();
    let mut i: usize = 0;
    while i < n
        invariant
            text.is_ascii(),
            n == text@.len(),
            i <= n,
            out@ == dashed(text@.subrange(0, i as int)),
        decreases n - i,
    {
        let b = text.get_ascii(i);
        if b == 0x2f {
            proof {
                reveal_strlit("-");
            }
            out.append("-");
        } else {
            out.append(text.substring_ascii(i, i + 1));
        }
        assert(out@ == dashed(text@.subrange(0, i + 1)));
        i += 1;
    }
    assert(text@.subrange(0, n as int) == text@);
    out
}

/// `replace_slashes` for any text, character by character. Finding a
/// character takes a walk from the start of the text.
fn replace_slashes_chars(text: &str) -> (out: String)
    ensures
        out@ == dashed(text@),
{
    let n = text.unicode_len();
    let mut out = String::new();
    let mut i: usize = 0;
    while i < n
        invariant
            n == text@.len(),
            i <= n,
            out@ == dashed(text@.subrange(0, i as int)),
        decreases n - i,
    {
        let c = text.get_char(i);
        if c == '/' {
            proof {
                reveal_strlit("-");
            }
            out.append("-");
        } else {
            out.append(text.substring_char(i, i + 1));
        }
        assert(out@ == dashed(text@.subrange(0, i + 1)));
        i += 1;
    }
    assert(text@.subrange(0, n as int) == text@);
    out
}

/// A copy of `text` with every slash replaced by a dash.
pub fn replace_slashes(text: &str) -> (out: String)
    ensures
        out@ == dashed(text@),
{
    if text.is_ascii() {
        replace_slashes_ascii(text)
    } else {
        replace_slashes_chars(text)
    }
}

/// The text of a date and time in the form that is parsed.
pub fn normalize(text: &str) -> (out: String)
    ensures
        out@ == normalized(text@),
{
    let upper = to_uppercase(text);
    replace_slashes(upper.as_str())
}

/// The instant that a sensor's date and time stand for.
///
/// The text may have slashes between the parts of the date and letters in
/// lower case, as in `2021/01/02T03:04:05z`.
pub fn parse_timestamp(text: &str) -> (instant: Result<Timestamp, SchemaError>)
    ensures
        instant == timestamp_of(text@),
{
    let normal = normalize(text);
    match parse_rfc3339(normal.as_str()) {
        Some(instant) => Ok(instant),
        None => Err(SchemaError::InvalidTimestamp),
    }
}

} // verus!
