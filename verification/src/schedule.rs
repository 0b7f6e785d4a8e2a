//! When the crate index is updated, and in what order it is gone through.

use std::cmp::Ordering;
use vstd::prelude::*;

verus! {

/// How long after one update began the next begins, in seconds.
pub const UPDATE_PERIOD: u64 = 300;

/// How long after a failed update the next begins, in seconds.
pub const RETRY_PAUSE: u64 = 10;

/// How long to wait for the next update.
#[derive(Clone, Copy, Debug, PartialEq, Eq, Structural)]
pub enum UpdatePause {
    /// Until this many seconds have passed since the last update began.
    SinceBegin(u64),
    /// For this many seconds.
    For(u64),
}

/// How long to wait after an update that succeeded or failed.
pub fn pause_after_update(succeeded: bool) -> (pause: UpdatePause)
    ensures
        pause == if succeeded {
            UpdatePause::SinceBegin(300)
        } else {
            UpdatePause::For(10)
        },
{
    if succeeded {
        UpdatePause::SinceBegin(UPDATE_PERIOD)
    } else {
        UpdatePause::For(RETRY_PAUSE)
    }
}

/// Which of two files of the index is gone through first: the one that was
/// modified later. Times are counted in nanoseconds from one moment.
pub fn newest_first(modified: i128, other: i128) -> (order: Ordering)
    ensures
        match order {
            Ordering::Less => modified > other,
            Ordering::Equal => modified == other,
            Ordering::Greater => modified < other,
        },
{
    if modified > other {
        Ordering::Less
    } else if modified == other {
        Ordering::Equal
    } else {
        Ordering::Greater
    }
}

/// Whether crates of a file of the index are still waiting for a worker: as
/// long as one end or the other of the channel to the workers holds any.
pub fn crates_waiting(receiver_empty: bool, sender_empty: bool) -> (waiting: bool)
    ensures
        waiting == !(receiver_empty && sender_empty),
{
    !receiver_empty || !sender_empty
}

} // verus!
