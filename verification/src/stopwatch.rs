//! The time between two ticks of a stage.
//!
//! A stage that integrates or differentiates over time needs the interval
//! since its last tick. Clock readings are handed in as nanoseconds counted
//! from any fixed origin, so the same readings always give the same intervals.

use vstd::prelude::*;

verus! {

/// Nanoseconds in one millisecond.
pub const NANOS_PER_MILLI: u128 = 1_000_000;

/// The shortest interval, in milliseconds, that a tick is ever credited with.
/// It keeps a stage from dividing by an interval of zero.
pub const MIN_ELAPSED_MILLIS: u128 = 1;

/// The interval in whole milliseconds that a tick at `now` is credited with
/// when the tick before it was at `last`.
///
/// Without an earlier tick the interval is the floor. Otherwise it is the time
/// since `last`, counted as zero if `last` lies after `now`, rounded down to
/// whole milliseconds and raised to the floor.
pub open spec fn floored_millis(last: Option<u128>, now: u128) -> int {
    match last {
        None => MIN_ELAPSED_MILLIS as int,
        Some(at) => if now - at < MIN_ELAPSED_MILLIS * NANOS_PER_MILLI {
            MIN_ELAPSED_MILLIS as int
        } else {
            (now - at) / (NANOS_PER_MILLI as int)
        },
    }
}

/// Computes the interval that a tick at `now` is credited with.
pub fn elapsed_millis(last: Option<u128>, now: u128) -> (ms: u128)
    ensures
        ms == floored_millis(last, now),
        ms >= MIN_ELAPSED_MILLIS,
{
    match last {
        None => MIN_ELAPSED_MILLIS,
        Some(at) => {
            if now < at {
                MIN_ELAPSED_MILLIS
            } else {
                let whole: u128 = (now - at) / NANOS_PER_MILLI;
                if whole < MIN_ELAPSED_MILLIS {
                    MIN_ELAPSED_MILLIS
                } else {
                    whole
                }
            }
        },
    }
}

/// The floor holds for every pair of readings, and a tick with no earlier
/// tick, or with no measurable time since it, is credited with exactly the
/// floor.
pub proof fn lemma_elapsed_floor(last: Option<u128>, now: u128)
    ensures
        floored_millis(last, now) >= MIN_ELAPSED_MILLIS,
        last is None ==> floored_millis(last, now) == MIN_ELAPSED_MILLIS,
        last == Some(now) ==> floored_millis(last, now) == MIN_ELAPSED_MILLIS,
{
}

/// The reading of the last tick of a stage, if there was one.
#[derive(Clone, Copy, Debug)]
pub struct Stopwatch {
    last: Option<u128>,
}

impl View for Stopwatch {
    type V = Option<u128>;

    closed spec fn view(&self) -> Option<u128> {
        self.last
    }
}

impl Stopwatch {
    /// A stopwatch that has seen no tick yet.
    pub fn unstarted() -> (watch: Self)
        ensures
            watch@ is None,
    {
        Stopwatch { last: None }
    }

    /// A stopwatch whose last tick was at `now`.
    pub fn started(now: u128) -> (watch: Self)
        ensures
            watch@ == Some(now),
    {
        Stopwatch { last: Some(now) }
    }

    /// The reading of the last tick.
    pub fn last(&self) -> (last: Option<u128>)
        ensures
            last == self@,
    {
        self.last
    }

    /// Records a tick at `now` and returns the interval in milliseconds that
    /// it is credited with.
    pub fn lap(&mut self, now: u128) -> (ms: u128)
        ensures
            ms == floored_millis(old(self)@, now),
            ms >= MIN_ELAPSED_MILLIS,
            final(self)@ == Some(now),
    {
        let ms = elapsed_millis(self.last, now);
        self.last = Some(now);
        ms
    }
}

} // verus!
