//! Normalisation of fields of package metadata.
//!
//! Metadata files of packages come from many tools and many years. The
//! functions of this module turn what was read from such a file into the value
//! that the rest of the program works with, and back.

use vstd::prelude::*;
use vstd::std_specs::iter::IteratorSpec;
use vstd::string::StringExecFns;

verus! {

/// A parsed URL.
#[verifier::external_type_specification]
#[verifier::external_body]
pub struct ExUrl(url::Url);

/// The reason why a text is no URL.
#[verifier::external_type_specification]
#[verifier::external_body]
pub struct ExParseError(url::ParseError);

/// A date and a time of day, without a time zone.
#[verifier::external_type_specification]
#[verifier::external_body]
pub struct ExNaiveDateTime(chrono::NaiveDateTime);

/// The items of `items` that are present, in their order.
pub open spec fn present<T>(items: Seq<Option<T>>) -> Seq<T>
    decreases items.len(),
{
    if items.len() == 0 {
        Seq::empty()
    } else {
        match items.last() {
            Some(item) => present(items.drop_last()).push(item),
            None => present(items.drop_last()),
        }
    }
}

/// A list in which `None` items are skipped.
pub struct VecSkipNone;

impl VecSkipNone {
    /// Keeps the items of `items` that are present, in their order.
    pub fn deserialize_as<T>(items: Vec<Option<T>>) -> (r: Vec<T>)
        ensures
            r@ == present(items@),
    {
        let mut kept: Vec<T> = Vec::new();
        for item in it: items
            invariant
                it.seq() == items@,
                kept@ == present(items@.take(it.index() as int)),
        {
            assert(items@.take(it.index() + 1).drop_last() =~= items@.take(it.index() as int));
            if let Some(item) = item {
                kept.push(item);
            }
        }
        assert(items@.take(items@.len() as int) =~= items@);
        kept
    }
}

/// What `Url::parse` of the `url` crate makes of a text: the URL, or the reason
/// why the text is none.
pub uninterp spec fn parsed_url(text: Seq<char>) -> Result<url::Url, url::ParseError>;

/// Parses `text` as an absolute URL with `Url::parse` of the `url` crate. The
/// result is a function of the text alone.
#[verifier::external_body]
fn parse_url(text: &str) -> (r: Result<url::Url, url::ParseError>)
    ensures
        r == parsed_url(text@),
{
    url::Url::parse(text)
}

/// A URL that may be missing or malformed.
pub struct LossyUrl;

impl LossyUrl {
    /// What is kept of a parsed text: the URL, if the text was one.
    pub open spec fn kept(parsed: Result<url::Url, url::ParseError>) -> Option<url::Url> {
        match parsed {
            Ok(url) => Some(url),
            Err(_) => None,
        }
    }

    /// Keeps the URL of a parsed text and drops the reason why a text was none.
    pub fn keep(parsed: Result<url::Url, url::ParseError>) -> (r: Option<url::Url>)
        ensures
            r == Self::kept(parsed),
    {
        match parsed {
            Ok(url) => Some(url),
            Err(_) => None,
        }
    }

    /// Reads a URL leniently: a text that is no URL counts as a missing URL, not
    /// as an error.
    pub fn deserialize_as(text: Option<String>) -> (r: Option<url::Url>)
        ensures
            r == match text {
                Some(text) => Self::kept(parsed_url(text@)),
                None => None,
            },
    {
        match text {
            Some(text) => Self::keep(parse_url(text.as_str())),
            None => None,
        }
    }
}

/// A text that was read either as one string or as a list of lines.
#[derive(Debug, PartialEq, Eq)]
pub enum MultiLine {
    /// The text as one string.
    Single(String),
    /// The lines of the text.
    Multi(Vec<String>),
}

/// The lines joined into one text, with a line feed between two lines.
pub open spec fn joined(lines: Seq<String>) -> Seq<char>
    decreases lines.len(),
{
    if lines.len() == 0 {
        Seq::empty()
    } else if lines.len() == 1 {
        lines[0]@
    } else {
        joined(lines.drop_last()) + seq!['\n'] + lines.last()@
    }
}

/// A text that may be given as a list of lines.
pub struct MultiLineString;

impl MultiLineString {
    /// The text that `value` stands for.
    pub open spec fn text(value: MultiLine) -> Seq<char> {
        match value {
            MultiLine::Single(text) => text@,
            MultiLine::Multi(lines) => joined(lines@),
        }
    }

    /// Turns what was read into one text: a string stays as it is, and lines are
    /// joined with a line feed between two of them.
    pub fn deserialize_as(value: MultiLine) -> (r: String)
        ensures
            r@ == Self::text(value),
    {
        match value {
            MultiLine::Single(text) => text,
            MultiLine::Multi(lines) => {
                let mut text = String::new();
                let mut i: usize = 0;
                while i < lines.len()
                    invariant
                        i <= lines.len(),
                        text@ == joined(lines@.take(i as int)),
                    decreases lines.len() - i,
                {
                    assert(lines@.take(i + 1).drop_last() =~= lines@.take(i as int));
                    if i > 0 {
                        text.push('\n');
                    }
                    text.append(lines[i].as_str());
                    i += 1;
                }
                assert(lines@.take(lines@.len() as int) =~= lines@);
                text
            },
        }
    }
}

/// The largest number that is read as seconds since the epoch: the last second
/// of the year 9999. Larger numbers are milliseconds.
pub const LAST_SECOND: i64 = 253_402_300_799;

/// What `DateTime::from_timestamp_micros` of the `chrono` crate makes of a
/// number of microseconds since the epoch: the point in time, or nothing where
/// the number is out of the range of that type.
pub uninterp spec fn datetime_of_micros(micros: int) -> Option<chrono::NaiveDateTime>;

/// What `DateTime::timestamp_millis` of the `chrono` crate gives for a point in
/// time, read as UTC: the milliseconds since the epoch.
pub uninterp spec fn millis_of_datetime(datetime: chrono::NaiveDateTime) -> int;

/// The point in time that lies `micros` microseconds after the epoch, as
/// `DateTime::from_timestamp_micros` of the `chrono` crate gives it. The result
/// is a function of the number alone.
#[verifier::external_body]
fn datetime_from_micros(micros: i64) -> (r: Option<chrono::NaiveDateTime>)
    ensures
        r == datetime_of_micros(micros as int),
{
    chrono::DateTime::from_timestamp_micros(micros).map(|datetime| datetime.naive_utc())
}

/// The milliseconds from the epoch to `datetime`, read as UTC, as
/// `DateTime::timestamp_millis` of the `chrono` crate gives them. The result is
/// a function of the point in time alone.
#[verifier::external_body]
fn datetime_to_millis(datetime: &chrono::NaiveDateTime) -> (r: i64)
    ensures
        r == millis_of_datetime(*datetime),
{
    datetime.and_utc().timestamp_millis()
}

/// Why a number is no timestamp.
#[derive(Clone, Copy, Debug, PartialEq, Eq, Structural)]
pub enum TimestampError {
    /// The number stands for a point in time that cannot be represented.
    OutOfRange,
}

/// A point in time that is stored as a number: seconds since the epoch, or
/// milliseconds where the number is too large for seconds.
pub struct Timestamp;

impl Timestamp {
    /// The microseconds since the epoch that `timestamp` stands for.
    pub open spec fn micros(timestamp: int) -> int {
        if timestamp > LAST_SECOND {
            timestamp * 1_000
        } else {
            timestamp * 1_000_000
        }
    }

    /// The point in time that `timestamp` stands for, given what the `chrono`
    /// crate makes of its microseconds: microseconds that do not fit into 64
    /// bits are out of range like those that `chrono` cannot represent.
    pub open spec fn datetime(timestamp: int) -> Result<chrono::NaiveDateTime, TimestampError> {
        if i64::MIN <= Self::micros(timestamp) <= i64::MAX {
            Self::in_range(datetime_of_micros(Self::micros(timestamp)))
        } else {
            Err(TimestampError::OutOfRange)
        }
    }

    /// The number that is stored for a point in time `millis` milliseconds
    /// after the epoch: whole seconds are stored as seconds.
    pub open spec fn stored(millis: int) -> int {
        if millis % 1000 == 0 {
            millis / 1000
        } else {
            millis
        }
    }

    /// A point in time that could be represented, or the error for one that
    /// could not.
    pub open spec fn in_range(datetime: Option<chrono::NaiveDateTime>) -> Result<
        chrono::NaiveDateTime,
        TimestampError,
    > {
        match datetime {
            Some(datetime) => Ok(datetime),
            None => Err(TimestampError::OutOfRange),
        }
    }

    /// The microseconds since the epoch that `timestamp` stands for, unless
    /// they do not fit into 64 bits.
    pub fn to_micros(timestamp: i64) -> (r: Option<i64>)
        ensures
            r == if i64::MIN <= Self::micros(timestamp as int) <= i64::MAX {
                Some(Self::micros(timestamp as int) as i64)
            } else {
                None
            },
    {
        if timestamp > LAST_SECOND {
            timestamp.checked_mul(1_000)
        } else {
            timestamp.checked_mul(1_000_000)
        }
    }

    /// Turns a point in time that may be out of range into a result.
    pub fn check_range(datetime: Option<chrono::NaiveDateTime>) -> (r: Result<
        chrono::NaiveDateTime,
        TimestampError,
    >)
        ensures
            r == Self::in_range(datetime),
    {
        match datetime {
            Some(datetime) => Ok(datetime),
            None => Err(TimestampError::OutOfRange),
        }
    }

    /// Reads a stored number as a point in time, in UTC. A number up to
    /// [`LAST_SECOND`] counts seconds since the epoch, a larger one
    /// milliseconds.
    pub fn deserialize_as(timestamp: i64) -> (r: Result<chrono::NaiveDateTime, TimestampError>)
        ensures
            r == Self::datetime(timestamp as int),
    {
        match Self::to_micros(timestamp) {
            Some(microseconds) => Self::check_range(datetime_from_micros(microseconds)),
            None => Err(TimestampError::OutOfRange),
        }
    }

    /// The number to store for `millis` milliseconds since the epoch: seconds
    /// where the point in time is a whole second, else milliseconds.
    pub fn to_stored(millis: i64) -> (r: i64)
        ensures
            r == Self::stored(millis as int),
    {
        if millis % 1000 == 0 {
            millis / 1000
        } else {
            millis
        }
    }

    /// The number to store for the point in time `source`, read as UTC.
    pub fn serialize_as(source: &chrono::NaiveDateTime) -> (r: i64)
        ensures
            r == Self::stored(millis_of_datetime(*source)),
    {
        Self::to_stored(datetime_to_millis(source))
    }
}

} // verus!
