//! Holding frames back, for `--video-buffer N`: when a frame is due.
//!
//! A frame is released on its own timestamp — what the clock says the
//! device's timestamp is worth here, plus the delay — re-derived every time
//! the waiting thread wakes, because every frame pushed since improves the
//! clock's estimate. It is never held past the ceiling, `delay` after it was
//! picked up; one with no timestamp to go by goes out at the ceiling, and one
//! whose deadline has passed goes out at once rather than being dropped.
//!
//! All times are in microseconds on this machine's monotonic clock.

use vstd::prelude::*;
use crate::clock::Clock;

verus! {

/// Tell the clock about a frame as it is queued, when the frame has a
/// timestamp.
pub fn note_frame(clock: &mut Clock, pts: Option<i64>, now: i64)
    requires
        pts matches Some(p) ==> old(clock).update_fits(now as int, p as int),
    ensures
        match pts {
            Some(p) => {
                &&& final(clock).points() == Clock::next_points(old(clock).points())
                &&& final(clock).estimate() == Clock::next_estimate(
                    old(clock).points(),
                    old(clock).estimate(),
                    now as int,
                    p as int,
                )
            },
            None => final(clock).points() == old(clock).points() && final(clock).estimate() == old(clock).estimate(),
        },
{
    match pts {
        Some(p) => clock.update(now, p),
        None => {},
    }
}

/// When a frame is let out: on its timestamp, as the clock puts it in this
/// machine's time, plus the delay, but never later than the ceiling; at the
/// ceiling when there is nothing to schedule it on.
pub open spec fn deadline_spec(clock: Clock, pts: Option<i64>, delay: int, ceiling: int) -> int {
    match pts {
        Some(p) => if clock.points() > 0 {
            let at = p + clock.estimate() + delay;
            if at < ceiling { at } else { ceiling }
        } else {
            ceiling
        },
        None => ceiling,
    }
}

/// Whether `release_deadline` computes within `i64`.
pub open spec fn deadline_fits(clock: Clock, pts: Option<i64>, delay: int) -> bool {
    match pts {
        Some(p) => clock.points() > 0 ==> {
            &&& i64::MIN <= p + clock.estimate() <= i64::MAX
            &&& p + clock.estimate() + delay <= i64::MAX
        },
        None => true,
    }
}

/// See `deadline_fits`: whether `release_deadline` can be asked about a
/// frame.
pub fn deadline_in_range(clock: &Clock, pts: Option<i64>, delay: i64) -> (b: bool)
    requires
        delay >= 0,
    ensures
        b == deadline_fits(*clock, pts, delay as int),
{
    match pts {
        Some(p) => {
            if !clock.is_set() {
                return true;
            }
            if !clock.can_convert(p) {
                return false;
            }
            match clock.to_system_time(p) {
                Some(due) => due as i128 + delay as i128 <= i64::MAX as i128,
                None => true,
            }
        },
        None => true,
    }
}

/// See `deadline_spec`. The deadline is asked again every time the waiting
/// thread wakes, since every frame pushed meanwhile improves the clock.
pub fn release_deadline(clock: &Clock, pts: Option<i64>, delay: i64, ceiling: i64) -> (d: i64)
    requires
        deadline_fits(*clock, pts, delay as int),
        delay >= 0,
    ensures
        d as int == deadline_spec(*clock, pts, delay as int, ceiling as int),
        d <= ceiling,
{
    let due = match pts {
        Some(p) => if clock.is_set() { clock.to_system_time(p) } else { None },
        None => None,
    };
    match due {
        Some(due) => {
            let at = due + delay;
            if at < ceiling { at } else { ceiling }
        },
        None => ceiling,
    }
}

/// How long to wait for a deadline, in microseconds; nothing when it has
/// come, or passed, and the frame goes out at once rather than being dropped.
pub fn time_to_wait(deadline: i64, now: i64) -> (r: Option<u64>)
    ensures
        r == (if deadline > now { Some((deadline - now) as u64) } else { None::<u64> }),
{
    if deadline > now {
        Some((deadline as i128 - now as i128) as u64)
    } else {
        None
    }
}

/// However far the device's timestamps jump and however wrong the clock's
/// estimate is, no frame waits past its ceiling; one with no timestamp, or
/// taken before the clock has one, goes out exactly at the ceiling.
pub proof fn no_frame_is_held_past_the_ceiling(clock: Clock, pts: Option<i64>, delay: int, ceiling: int)
    ensures
        deadline_spec(clock, pts, delay, ceiling) <= ceiling,
        (pts is None || clock.points() == 0) ==> deadline_spec(clock, pts, delay, ceiling) == ceiling,
{
}

} // verus!
