//! Wall-clock instants, held as seconds and nanoseconds since the Unix epoch
//! together with the local offset from UTC in which they were observed.

use vstd::prelude::*;
use vstd::arithmetic::div_mod::lemma_fundamental_div_mod_converse;

verus! {

pub const NANOS_PER_SEC: u32 = 1_000_000_000;

/// Largest distance from the epoch, in seconds, of an instant (about 253,000
/// years, within the calendar range that chrono can represent).
pub const MAX_ABS_SECS: i64 = 8_000_000_000_000;

/// Bound on the size of a UTC offset, in seconds (one day, exclusive).
pub const MAX_OFFSET_SECS: i32 = 86_400;

/// An instant on the wall clock.
#[derive(Clone, Copy, Debug, PartialEq, Eq, Structural)]
pub struct Timestamp {
    /// Whole seconds since 1970-01-01T00:00:00Z.
    pub secs: i64,
    /// Nanoseconds past `secs`.
    pub nanos: u32,
    /// Offset of the local time zone from UTC, in seconds (east positive).
    pub offset_secs: i32,
}

impl Timestamp {
    /// The nanosecond part is below one second, the instant lies within
    /// `MAX_ABS_SECS` of the epoch and the offset is less than a day.
    pub open spec fn wf(&self) -> bool {
        &&& self.nanos < NANOS_PER_SEC
        &&& -MAX_ABS_SECS <= self.secs <= MAX_ABS_SECS
        &&& -MAX_OFFSET_SECS < self.offset_secs < MAX_OFFSET_SECS
    }

    /// The instant as nanoseconds since the epoch.
    pub open spec fn total_nanos(&self) -> int {
        self.secs * 1_000_000_000 + self.nanos
    }

    /// Builds an instant; `None` where the parts are out of range.
    pub fn new(secs: i64, nanos: u32, offset_secs: i32) -> (r: Option<Timestamp>)
        ensures
            match r {
                Some(t) => t.wf() && t == (Timestamp { secs, nanos, offset_secs }),
                None => !(Timestamp { secs, nanos, offset_secs }).wf(),
            },
    {
        if nanos < NANOS_PER_SEC && -MAX_ABS_SECS <= secs && secs <= MAX_ABS_SECS && -MAX_OFFSET_SECS
            < offset_secs && offset_secs < MAX_OFFSET_SECS {
            Some(Timestamp { secs, nanos, offset_secs })
        } else {
            None
        }
    }

    /// Whether the parts are in range.
    pub fn is_valid(&self) -> (r: bool)
        ensures
            r == self.wf(),
    {
        self.nanos < NANOS_PER_SEC && -MAX_ABS_SECS <= self.secs && self.secs <= MAX_ABS_SECS
            && -MAX_OFFSET_SECS < self.offset_secs && self.offset_secs < MAX_OFFSET_SECS
    }

    /// `self` is not later than `other`.
    pub fn not_after(&self, other: &Timestamp) -> (r: bool)
        requires
            self.wf(),
            other.wf(),
        ensures
            r == (self.total_nanos() <= other.total_nanos()),
    {
        self.secs < other.secs || (self.secs == other.secs && self.nanos <= other.nanos)
    }
}

/// The RFC 3339 text of an instant shown in its own UTC offset.
pub uninterp spec fn rfc3339_of(secs: int, nanos: int, offset_secs: int) -> Seq<char>;

/// Relies on chrono's `DateTime::<Utc>::from_timestamp` (which gives a value
/// for every instant of this range with a nanosecond part below one second),
/// `FixedOffset::east_opt` (a value for every offset under a day) and
/// `DateTime::to_rfc3339`, whose text depends on the instant and offset alone.
#[verifier::external_body]
pub(crate) fn format_rfc3339(t: &Timestamp) -> (r: String)
    requires
        t.wf(),
    ensures
        r@ == rfc3339_of(t.secs as int, t.nanos as int, t.offset_secs as int),
{
    let offset = chrono::FixedOffset::east_opt(t.offset_secs).unwrap();
    chrono::DateTime::from_timestamp(t.secs, t.nanos).unwrap().with_timezone(&offset).to_rfc3339()
}

/// Whole seconds from `start` to `end`, truncated toward zero.
pub open spec fn whole_seconds_between(start: Timestamp, end: Timestamp) -> int {
    (end.total_nanos() - start.total_nanos()) / 1_000_000_000
}

/// The number of whole seconds that elapsed from `start` to `end`.
pub fn seconds_between(start: &Timestamp, end: &Timestamp) -> (r: u64)
    requires
        start.wf(),
        end.wf(),
        start.total_nanos() <= end.total_nanos(),
    ensures
        r as int == whole_seconds_between(*start, *end),
{
    let ds: i128 = end.secs as i128 - start.secs as i128;
    let q: i128 = if end.nanos >= start.nanos {
        ds
    } else {
        ds - 1
    };
    proof {
        let d = end.total_nanos() - start.total_nanos();
        let rem = d - q * 1_000_000_000;
        assert(0 <= rem < 1_000_000_000);
        lemma_fundamental_div_mod_converse(d, 1_000_000_000, q as int, rem);
    }
    q as u64
}

} // verus!
