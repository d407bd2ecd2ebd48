//! Robot time in milliseconds.
use vstd::prelude::*;

verus! {

/// A time or a difference of times, in milliseconds.
#[derive(Clone, Copy, PartialEq, Eq, Structural, Debug, Hash)]
pub struct Duration {
    /// The milliseconds.
    pub milliseconds: u64,
}

impl Default for Duration {
    /// Zero.
    fn default() -> (r: Duration)
        ensures
            r == (Duration { milliseconds: 0 }),
    {
        Duration { milliseconds: 0 }
    }
}

impl Duration {
    /// A duration of so many milliseconds.
    pub fn from_millis(milliseconds: u64) -> (r: Duration)
        ensures
            r == (Duration { milliseconds }),
    {
        Duration { milliseconds }
    }

    /// The milliseconds.
    pub fn as_millis(&self) -> (r: u64)
        ensures
            r == self.milliseconds,
    {
        self.milliseconds
    }

    /// The time from `earlier` to `self`.
    pub open spec fn after(self, earlier: Duration) -> Duration {
        Duration {
            milliseconds: if self.milliseconds >= earlier.milliseconds {
                (self.milliseconds - earlier.milliseconds) as u64
            } else {
                0
            },
        }
    }

    /// The time from `earlier` to `self`, zero when `earlier` is the later one.
    pub fn since(self, earlier: Duration) -> (r: Duration)
        ensures
            r == self.after(earlier),
    {
        Duration { milliseconds: self.milliseconds.saturating_sub(earlier.milliseconds) }
    }
}

/// The time from the previous state to this one; zero when there was none.
pub open spec fn elapsed(previous: Option<Duration>, now: Duration) -> Duration {
    match previous {
        Some(previous) => now.after(previous),
        None => Duration { milliseconds: 0 },
    }
}

/// The time from the previous state to this one; zero when there was none.
pub fn time_since(previous: Option<Duration>, now: Duration) -> (r: Duration)
    ensures
        r == elapsed(previous, now),
{
    match previous {
        Some(previous) => now.since(previous),
        None => Duration::default(),
    }
}

/// The time from one moment to a later one brings that later one about; there is none to an earlier
/// one, and none where there was no moment before.
pub proof fn law_elapsed_time(earlier: Duration, now: Duration)
    ensures
        earlier.milliseconds <= now.milliseconds ==> earlier.milliseconds + now.after(
            earlier,
        ).milliseconds == now.milliseconds,
        now.milliseconds <= earlier.milliseconds ==> now.after(earlier).milliseconds == 0,
        elapsed(Some(earlier), now) == now.after(earlier),
        elapsed(None, now).milliseconds == 0,
{
}

} // verus!
