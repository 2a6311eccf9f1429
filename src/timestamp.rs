use vstd::prelude::*;

verus! {

/// An instant with the UTC offset it was written in: whole seconds since the Unix epoch,
/// the nanoseconds past that second (beyond a billion only inside a leap second), and
/// the offset east of UTC in seconds.
#[derive(Clone, Copy, Debug, PartialEq, Eq, Structural)]
pub struct Timestamp {
    pub secs: i64,
    pub nanos: u32,
    pub offset: i32,
}

/// `a` is strictly earlier than `b`; the offset does not take part.
pub open spec fn earlier(a: Timestamp, b: Timestamp) -> bool {
    a.secs < b.secs || (a.secs == b.secs && a.nanos < b.nanos)
}

impl Timestamp {
    pub fn is_before(&self, other: &Timestamp) -> (r: bool)
        ensures
            r == earlier(*self, *other),
    {
        self.secs < other.secs || (self.secs == other.secs && self.nanos < other.nanos)
    }
}

/// What `chrono::DateTime::parse_from_rfc3339` yields for a text, as a `Timestamp`.
pub uninterp spec fn rfc3339_instant(s: Seq<char>) -> Option<Timestamp>;

/// Relies on `chrono::DateTime::<FixedOffset>::parse_from_rfc3339`, read through `timestamp`,
/// `timestamp_subsec_nanos` and the offset's `local_minus_utc`: the outcome depends on the
/// text alone.
#[verifier::external_body]
pub(crate) fn parse_rfc3339(s: &str) -> (r: Option<Timestamp>)
    ensures
        r == rfc3339_instant(s@),
{
    match chrono::DateTime::parse_from_rfc3339(s) {
        Ok(d) => Some(Timestamp {
            secs: d.timestamp(),
            nanos: d.timestamp_subsec_nanos(),
            offset: d.offset().local_minus_utc(),
        }),
        Err(_) => None,
    }
}

} // verus!
