//! Points in time as the service writes them.

use vstd::prelude::*;
use crate::json::{Json, JsonTree};
use crate::wire::Wire;

verus! {

/// A point in time: the text that names it, and the instant that the text
/// denotes, counted from 1970-01-01T00:00:00Z.
#[derive(Clone, Debug, PartialEq, Eq)]
pub struct Timestamp {
    /// The date and time as written: year, month and day with `-` between
    /// them; then `T`, `t` or a space; then hour, minute and second with
    /// `:` between them and, if there is one, a fraction of the second
    /// after a `.`; then the offset from UTC, which is `Z`, `UTC`, or a
    /// sign with hours and minutes, with or without a `:` between them.
    /// This is RFC 3339 read loosely: a value need not be padded to two
    /// digits, spaces may stand between the parts, and a year outside 0 to
    /// 9999 is taken where it bears a sign.
    pub text: String,
    /// Whole seconds since the epoch; negative before it.
    pub seconds: i64,
    /// Nanoseconds past the whole second; a billion or more inside a leap
    /// second.
    pub nanos: u32,
}

/// The mathematical value of a [`Timestamp`].
pub struct TimestampView {
    pub text: Seq<char>,
    pub seconds: i64,
    pub nanos: u32,
}

impl DeepView for Timestamp {
    type V = TimestampView;

    open spec fn deep_view(&self) -> TimestampView {
        TimestampView { text: self.text@, seconds: self.seconds, nanos: self.nanos }
    }
}

/// The instant that a text denotes, in seconds since the epoch and
/// nanoseconds past the second; `None` where the text is no date and time.
pub uninterp spec fn instant_of(text: Seq<char>) -> Option<(i64, u32)>;

/// Parses a text with `str::parse` at `chrono::DateTime<chrono::Utc>` and
/// reads the instant off with `DateTime::timestamp` and
/// `DateTime::timestamp_subsec_nanos`: the result is the instant that the
/// text denotes.
#[verifier::external_body]
fn read_instant(text: &str) -> (r: Option<(i64, u32)>)
    ensures
        r == instant_of(text@),
{
    match text.parse::<chrono::DateTime<chrono::Utc>>() {
        Ok(at) => Some((at.timestamp(), at.timestamp_subsec_nanos())),
        Err(_) => None,
    }
}

/// Reads the clock with `chrono::Utc::now`, writes the reading down with
/// `DateTime::to_rfc3339_opts` and reads its instant off with
/// `DateTime::timestamp` and `DateTime::timestamp_subsec_nanos`. Which
/// reading comes back is the clock's affair; whatever it is, its text
/// denotes its instant. The writer puts down the year in four digits, or
/// with a sign where it has more, the whole second, the fraction in three,
/// six or nine digits so that none is lost, and `Z`; the parser behind
/// [`instant_of`] takes each of these back as written, and a reading of the
/// clock never lies inside a leap second. On a machine whose clock stands
/// before 1970 the call does not return.
#[verifier::external_body]
pub(crate) fn clock() -> (r: Timestamp)
    ensures
        instant_of(r.text@) == Some((r.seconds, r.nanos)),
{
    let at = chrono::Utc::now();
    Timestamp {
        text: at.to_rfc3339_opts(chrono::SecondsFormat::AutoSi, true),
        seconds: at.timestamp(),
        nanos: at.timestamp_subsec_nanos(),
    }
}

impl Timestamp {
    /// Whether the instant is the one that the text denotes.
    pub open spec fn agrees(value: TimestampView) -> bool {
        instant_of(value.text) == Some((value.seconds, value.nanos))
    }

    /// Reads a date and time.
    pub fn parse(text: &str) -> (r: Option<Timestamp>)
        ensures
            r.deep_view() == Self::decoded(JsonTree::Text(text@)),
    {
        match read_instant(text) {
            Some((seconds, nanos)) => Some(Timestamp { text: text.to_owned(), seconds, nanos }),
            None => None,
        }
    }
}

/// A string that is a date and time.
impl Wire for Timestamp {
    open spec fn decoded(tree: JsonTree) -> Option<TimestampView> {
        match tree {
            JsonTree::Text(text) => match instant_of(text) {
                Some((seconds, nanos)) => Some(TimestampView { text, seconds, nanos }),
                None => None,
            },
            _ => None,
        }
    }

    open spec fn encoded(value: TimestampView) -> JsonTree {
        JsonTree::Text(value.text)
    }

    open spec fn sound(value: TimestampView) -> bool {
        Self::agrees(value)
    }

    fn decode(json: &Json) -> (r: Option<Timestamp>) {
        match json {
            Json::Text(text) => Timestamp::parse(text.as_str()),
            _ => None,
        }
    }

    fn encode(&self) -> (json: Json) {
        Json::Text(self.text.clone())
    }

    proof fn decoded_is_sound(tree: JsonTree) {
    }

    proof fn never_null(value: TimestampView) {
    }

    proof fn round_trip(value: TimestampView) {
    }
}

} // verus!
