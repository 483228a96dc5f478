//! Instants, as transcripts and reports write them.
use vstd::prelude::*;

verus! {

/// An instant: whole seconds since the Unix epoch, and nanoseconds since the last
/// second boundary. In a leap second the nanoseconds exceed a second.
#[derive(Debug, Clone, Copy, PartialEq, Eq, Structural)]
pub struct Timestamp {
    pub seconds: i64,
    pub nanos: u32,
}

impl Timestamp {
    /// Whether `self` comes before `other`.
    pub open spec fn before(self, other: Timestamp) -> bool {
        ||| self.seconds < other.seconds
        ||| self.seconds == other.seconds && self.nanos < other.nanos
    }
}

/// The instant that an RFC 3339 text names, `None` where the text is not one.
pub uninterp spec fn rfc3339_instant(text: Seq<char>) -> Option<Timestamp>;

/// `chrono::DateTime::parse_from_rfc3339`: reads a text as a date and time with an
/// offset. The result, as seconds (`timestamp`) and nanoseconds
/// (`timestamp_subsec_nanos`) in UTC, is a function of the text alone; how it
/// depends on the text is the calendar and RFC 3339, and is left to the crate.
#[verifier::external_body]
pub(crate) fn parse_rfc3339(text: &str) -> (instant: Option<Timestamp>)
    ensures
        instant == rfc3339_instant(text@),
{
    chrono::DateTime::parse_from_rfc3339(text).ok().map(
        |t| Timestamp { seconds: t.timestamp(), nanos: t.timestamp_subsec_nanos() },
    )
}

/// A decimal digit.
pub open spec fn digit(c: char) -> bool {
    '0' <= c && c <= '9'
}

/// Nothing but decimal digits.
pub open spec fn digits(s: Seq<char>) -> bool {
    forall|i: int| 0 <= i < s.len() ==> digit(#[trigger] s[i])
}

/// Whether a number of two digits, from `low` to `high`, stands in `s` at `at`.
pub open spec fn pair_at(s: Seq<char>, at: int, low: int, high: int) -> bool {
    &&& digit(s[at]) && digit(s[at + 1])
    &&& low <= 10 * (s[at] as int - '0' as int) + (s[at + 1] as int - '0' as int) <= high
}

/// A year: four digits, or a sign and at least as many.
pub open spec fn is_year(s: Seq<char>) -> bool {
    ||| s.len() == 4 && digits(s)
    ||| s.len() >= 5 && (s[0] == '+' || s[0] == '-') && digits(s.skip(1))
}

/// The fraction of a second: none, or a point and three, six or nine digits.
pub open spec fn is_fraction(s: Seq<char>) -> bool {
    ||| s.len() == 0
    ||| (s.len() == 4 || s.len() == 7 || s.len() == 10) && s[0] == '.' && digits(s.skip(1))
}

/// A date, `T`, a time of day, a fraction of a second and the offset of UTC, where the
/// year takes `n` characters.
pub open spec fn utc_time_after(s: Seq<char>, n: int) -> bool {
    &&& 4 <= n && n + 21 <= s.len()
    &&& is_year(s.take(n))
    &&& s[n] == '-' && pair_at(s, n + 1, 1, 12)
    &&& s[n + 3] == '-' && pair_at(s, n + 4, 1, 31)
    &&& s[n + 6] == 'T' && pair_at(s, n + 7, 0, 23)
    &&& s[n + 9] == ':' && pair_at(s, n + 10, 0, 59)
    &&& s[n + 12] == ':' && pair_at(s, n + 13, 0, 59)
    &&& is_fraction(s.subrange(n + 15, s.len() - 6))
    &&& s.skip(s.len() - 6) == "+00:00"@
}

/// A date and time in UTC, as RFC 3339 text with the offset written out.
pub open spec fn is_utc_time(s: Seq<char>) -> bool {
    exists|n: int| #[trigger] utc_time_after(s, n)
}

/// `chrono::Utc::now` and `to_rfc3339`: the time at which the call is made, as RFC
/// 3339 text. Whatever the time is, the text is a date, `T`, a time of day, a fraction
/// of a second of none, three, six or nine digits, and the offset of UTC, written out.
/// A year beyond four digits has a sign. Which time it is rests on the clock, and is
/// left unsaid.
#[verifier::external_body]
pub(crate) fn now_rfc3339() -> (text: String)
    ensures
        is_utc_time(text@),
{
    chrono::Utc::now().to_rfc3339()
}

} // verus!
