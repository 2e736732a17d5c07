//! A finished stretch of time spent in one application.

use vstd::prelude::*;
use crate::parser::{parse_app_info, parsed_as, is_lazy_capture, lemma_shape_unique, matches_shape};
use crate::resolver::{display_name, interpret_app_name};
use crate::timestamp::{Timestamp, format_rfc3339, rfc3339_of};

verus! {

/// A usage record: the application shown, the window title at the start of
/// the session, when it started and ended, and how many whole seconds it took.
#[derive(Debug)]
pub struct AppUsage {
    pub app: String,
    pub window: String,
    pub start_time: Timestamp,
    pub end_time: Timestamp,
    pub duration_secs: u64,
}

/// `u` is the record for the identifier `raw` over the given interval: its
/// application and window are those that `raw` reads as, the application
/// renamed where its bundle is known.
pub open spec fn describes(
    u: AppUsage,
    raw: Seq<char>,
    start: Timestamp,
    end: Timestamp,
    duration: u64,
) -> bool {
    &&& exists|app: Seq<char>, bundle: Seq<char>|
        #[trigger] parsed_as(raw, app, u.window@, bundle) && u.app@ == display_name(app, bundle)
    &&& u.start_time == start
    &&& u.end_time == end
    &&& u.duration_secs == duration
}

/// An identifier reads in exactly one way.
pub proof fn lemma_parsed_as_unique(
    s: Seq<char>,
    a: Seq<char>,
    w: Seq<char>,
    b: Seq<char>,
    a2: Seq<char>,
    w2: Seq<char>,
    b2: Seq<char>,
)
    requires
        parsed_as(s, a, w, b),
        parsed_as(s, a2, w2, b2),
    ensures
        a == a2 && w == w2 && b == b2,
{
    if matches_shape(s) {
        assert(is_lazy_capture(s, a, w, b));
        assert(is_lazy_capture(s, a2, w2, b2));
        lemma_shape_unique(s, a, w, b, a2, w2, b2);
    }
}

impl AppUsage {
    /// The record for the identifier `previous_app` over the given interval.
    pub fn new(previous_app: &str, start_time: Timestamp, end_time: Timestamp, duration: u64) -> (r:
        Self)
        ensures
            describes(r, previous_app@, start_time, end_time, duration),
    {
        let (app_name, window_title, bundle_id) = parse_app_info(previous_app);
        let app = interpret_app_name(app_name.as_str(), bundle_id.as_str());
        let r = AppUsage { app, window: window_title, start_time, end_time, duration_secs: duration };
        assert(parsed_as(previous_app@, app_name@, r.window@, bundle_id@));
        r
    }
}

/// A usage record as handed to a user interface: the instants as RFC 3339
/// text in the offset in which they were observed.
pub struct UsageRecord {
    pub app: String,
    pub window: String,
    pub start_time: String,
    pub end_time: String,
    pub duration_secs: u64,
}

impl UsageRecord {
    /// The transport form of `u`.
    pub fn from_usage(u: &AppUsage) -> (r: UsageRecord)
        requires
            u.start_time.wf(),
            u.end_time.wf(),
        ensures
            r.app@ == u.app@,
            r.window@ == u.window@,
            r.start_time@ == rfc3339_of(
                u.start_time.secs as int,
                u.start_time.nanos as int,
                u.start_time.offset_secs as int,
            ),
            r.end_time@ == rfc3339_of(
                u.end_time.secs as int,
                u.end_time.nanos as int,
                u.end_time.offset_secs as int,
            ),
            r.duration_secs == u.duration_secs,
    {
        UsageRecord {
            app: u.app.clone(),
            window: u.window.clone(),
            start_time: format_rfc3339(&u.start_time),
            end_time: format_rfc3339(&u.end_time),
            duration_secs: u.duration_secs,
        }
    }

    /// A copy of the record.
    pub fn duplicate(&self) -> (r: Self)
        ensures
            r == *self,
    {
        UsageRecord {
            app: self.app.clone(),
            window: self.window.clone(),
            start_time: self.start_time.clone(),
            end_time: self.end_time.clone(),
            duration_secs: self.duration_secs,
        }
    }
}

} // verus!
