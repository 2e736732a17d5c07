//! The two cadences of the sampling loop: the tracking flag is checked often,
//! the foreground window is sampled more rarely.

use vstd::prelude::*;

verus! {

/// Time between two samples of the foreground window, in milliseconds.
pub const SAMPLE_INTERVAL_MILLIS: u64 = 1_000;

/// Time between two checks of the tracking flag, in milliseconds.
pub const POLL_INTERVAL_MILLIS: u64 = 100;

/// Whether the next sample is due, `elapsed_millis` after the last one.
pub fn sample_due(elapsed_millis: u64) -> (r: bool)
    ensures
        r == (elapsed_millis >= SAMPLE_INTERVAL_MILLIS),
{
    elapsed_millis >= SAMPLE_INTERVAL_MILLIS
}

} // verus!
