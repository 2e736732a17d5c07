//! The state machine that cuts a stream of foreground samples into sessions.

use vstd::prelude::*;
use crate::text::same_text;
use crate::timestamp::{Timestamp, seconds_between, whole_seconds_between};
use crate::usage::{AppUsage, describes};

verus! {

/// Idle time, in milliseconds, from which a finished session is discarded.
pub const IDLE_THRESHOLD_MILLIS: u64 = 300_000;

/// The session in progress: the raw identifier sampled and when it began.
pub struct OpenSession {
    pub raw_identifier: String,
    pub start: Timestamp,
}

/// What the segmenter holds: no session, or one session in progress.
pub type SessionModel = Option<(Seq<char>, Timestamp)>;

/// The session in progress after the sample `sample` arrives at `now`.
/// An empty identifier means that no application is in front.
pub open spec fn next_session(s: SessionModel, sample: Seq<char>, now: Timestamp) -> SessionModel {
    match s {
        Some((prev, _)) if prev == sample => s,
        _ => if sample.len() == 0 {
            None
        } else {
            Some((sample, now))
        },
    }
}

/// The identifier of the open session changes with this sample.
pub open spec fn is_boundary(s: SessionModel, sample: Seq<char>) -> bool {
    match s {
        Some((prev, _)) => prev != sample,
        None => false,
    }
}

/// The session that the sample closes and that is kept, as its identifier,
/// start and end: kept where the idle time was read and is under the
/// threshold.
pub open spec fn kept_session(
    s: SessionModel,
    sample: Seq<char>,
    now: Timestamp,
    idle_millis: Option<u64>,
) -> Option<(Seq<char>, Timestamp, Timestamp)> {
    match (s, idle_millis) {
        (Some((prev, start)), Some(idle)) => if prev != sample && idle < IDLE_THRESHOLD_MILLIS {
            Some((prev, start, now))
        } else {
            None
        },
        _ => None,
    }
}

/// The session state machine.
pub struct Segmenter {
    session: Option<OpenSession>,
}

impl View for Segmenter {
    type V = SessionModel;

    closed spec fn view(&self) -> SessionModel {
        match self.session {
            Some(o) => Some((o.raw_identifier@, o.start)),
            None => None,
        }
    }
}

impl Segmenter {
    /// The open session has a non-empty identifier and a valid start.
    pub closed spec fn wf(&self) -> bool {
        match self.session {
            Some(o) => o.start.wf() && o.raw_identifier@.len() > 0,
            None => true,
        }
    }

    /// `now` is a valid instant not before the start of the open session.
    pub open spec fn admits(&self, now: Timestamp) -> bool {
        &&& now.wf()
        &&& match self@ {
            Some((_, start)) => start.total_nanos() <= now.total_nanos(),
            None => true,
        }
    }

    /// A segmenter with no session.
    pub fn new() -> (r: Self)
        ensures
            r.wf(),
            r@ is None,
    {
        Segmenter { session: None }
    }

    /// When the open session began, if there is one.
    pub fn session_start(&self) -> (r: Option<Timestamp>)
        ensures
            match self@ {
                Some((_, start)) => r == Some(start),
                None => r is None,
            },
    {
        match &self.session {
            Some(o) => Some(o.start),
            None => None,
        }
    }

    /// Whether `sample` closes the open session, so that the idle time has to
    /// be read.
    pub fn is_boundary(&self, sample: &str) -> (r: bool)
        ensures
            r == is_boundary(self@, sample@),
    {
        match &self.session {
            Some(o) => !same_text(o.raw_identifier.as_str(), sample),
            None => false,
        }
    }
    /// Feeds the sample `sample` taken at `now`, with the idle time read at
    /// that moment (`None` where it could not be read; only looked at when
    /// the sample closes the open session). Returns the record of the session
    /// that the sample closes, unless the user was idle or the idle time is
    /// unknown; the sample's own session starts at `now` either way.
    pub fn observe(&mut self, sample: &str, now: Timestamp, idle_millis: Option<u64>) -> (r: Option<
        AppUsage,
    >)
        requires
            old(self).wf(),
            old(self).admits(now),
        ensures
            final(self).wf(),
            final(self)@ == next_session(old(self)@, sample@, now),
            old(self)@ matches Some((prev, _)) ==> prev.len() > 0,
            match kept_session(old(self)@, sample@, now, idle_millis) {
                Some((raw, start, end)) => match r {
                    Some(u) => describes(u, raw, start, end, u.duration_secs)
                        && u.duration_secs == whole_seconds_between(start, end),
                    None => false,
                },
                None => r is None,
            },
    {
        if !self.is_boundary(sample) {
            if self.session.is_none() && sample.unicode_len() > 0 {
                self.session = Some(OpenSession { raw_identifier: String::from_str(sample), start: now });
            }
            return None;
        }
        let record = match &self.session {
            Some(o) => match idle_millis {
                Some(idle) => if idle < IDLE_THRESHOLD_MILLIS {
                    let duration = seconds_between(&o.start, &now);
                    Some(AppUsage::new(o.raw_identifier.as_str(), o.start, now, duration))
                } else {
                    None
                },
                None => None,
            },
            None => None,
        };
        if sample.unicode_len() == 0 {
            self.session = None;
        } else {
            self.session = Some(OpenSession { raw_identifier: String::from_str(sample), start: now });
        }
        record
    }
}

/// A session that starts with `a`, is sampled again with `a` and is left for
/// another application `b` while the user is active yields one record, of `a`
/// from the first sample to the switch; `b` is then the open session and no
/// record is made for it.
pub proof fn lemma_single_switch(
    a: Seq<char>,
    b: Seq<char>,
    t0: Timestamp,
    t1: Timestamp,
    t2: Timestamp,
)
    requires
        a.len() > 0,
        b.len() > 0,
        a != b,
    ensures
        kept_session(None, a, t0, Some(0)) is None,
        next_session(None, a, t0) == Some((a, t0)),
        kept_session(Some((a, t0)), a, t1, Some(0)) is None,
        next_session(Some((a, t0)), a, t1) == Some((a, t0)),
        kept_session(Some((a, t0)), b, t2, Some(0)) == Some((a, t0, t2)),
        next_session(Some((a, t0)), b, t2) == Some((b, t2)),
{
}

/// The same switch while the user has been idle for the threshold or longer
/// yields no record, and `b` still becomes the open session from the switch.
pub proof fn lemma_idle_switch(a: Seq<char>, b: Seq<char>, t0: Timestamp, t2: Timestamp, idle: u64)
    requires
        a.len() > 0,
        b.len() > 0,
        a != b,
        idle >= IDLE_THRESHOLD_MILLIS,
    ensures
        kept_session(Some((a, t0)), b, t2, Some(idle)) is None,
        kept_session(Some((a, t0)), b, t2, None) is None,
        next_session(Some((a, t0)), b, t2) == Some((b, t2)),
{
}

} // verus!
