//! When the picture is due to be drawn again.

use vstd::prelude::*;
use crate::clock::{precise_time_ns, NANOS_PER_SECOND};

verus! {

/// Pictures per second, unless told otherwise.
pub const DEFAULT_FPS: u64 = 60;

/// The clock reading that lies `interval` nanoseconds after `now`, or the
/// largest reading there is if that is nearer.
pub open spec fn spec_due_after(now: u64, interval: u64) -> u64 {
    if now + interval <= u64::MAX {
        (now + interval) as u64
    } else {
        u64::MAX
    }
}

#[verifier::when_used_as_spec(spec_due_after)]
pub fn due_after(now: u64, interval: u64) -> (due: u64)
    ensures
        due == spec_due_after(now, interval),
{
    if now <= u64::MAX - interval {
        now + interval
    } else {
        u64::MAX
    }
}

/// The time of the next picture and the time between two pictures, both in
/// nanoseconds of the clock.
#[derive(Debug, Clone, Copy, PartialEq, Eq, Structural)]
pub struct FpsInfo {
    pub next_update: u64,
    pub update_time: u64,
}

impl FpsInfo {
    /// A schedule of `DEFAULT_FPS` pictures per second whose first picture
    /// is due one interval after `now`.
    pub open spec fn spec_starting_at(now: u64) -> FpsInfo {
        FpsInfo {
            next_update: due_after(now, (NANOS_PER_SECOND / DEFAULT_FPS) as u64),
            update_time: (NANOS_PER_SECOND / DEFAULT_FPS) as u64,
        }
    }

    #[verifier::when_used_as_spec(spec_starting_at)]
    pub fn starting_at(now: u64) -> (info: FpsInfo)
        ensures
            info == FpsInfo::spec_starting_at(now),
    {
        let update_time = NANOS_PER_SECOND / DEFAULT_FPS;
        FpsInfo { next_update: due_after(now, update_time), update_time }
    }

    /// Whether the next picture is due at the clock reading `now`.
    pub open spec fn spec_should_redraw_at(&self, now: u64) -> bool {
        now >= self.next_update
    }

    #[verifier::when_used_as_spec(spec_should_redraw_at)]
    pub fn should_redraw_at(&self, now: u64) -> (due: bool)
        ensures
            due == self.spec_should_redraw_at(now),
    {
        now >= self.next_update
    }

    /// The schedule after a picture has been drawn at the clock reading
    /// `now`: the next one is due one interval later.
    pub open spec fn rescheduled(self, now: u64) -> FpsInfo {
        FpsInfo { next_update: due_after(now, self.update_time), update_time: self.update_time }
    }

    /// Notes that a picture has been drawn at the clock reading `now`.
    pub fn update_time_at(&mut self, now: u64)
        ensures
            *final(self) == old(self).rescheduled(now),
    {
        self.next_update = due_after(now, self.update_time);
    }

    /// Whether the next picture is due by the clock.
    pub fn should_redraw(&self) -> (due: bool)
        ensures
            exists|now: u64| due == self.spec_should_redraw_at(now),
    {
        let now = precise_time_ns();
        let due = self.should_redraw_at(now);
        assert(due == self.spec_should_redraw_at(now));
        due
    }

    /// Notes that a picture has just been drawn.
    pub fn update_time(&mut self)
        ensures
            exists|now: u64| *final(self) == #[trigger] old(self).rescheduled(now),
    {
        let now = precise_time_ns();
        self.update_time_at(now);
        assert(*self == old(self).rescheduled(now));
    }
}

impl Default for FpsInfo {
    /// A schedule of `DEFAULT_FPS` pictures per second that starts at the
    /// clock's present reading.
    fn default() -> (info: FpsInfo)
        ensures
            exists|now: u64| info == FpsInfo::spec_starting_at(now),
    {
        let now = precise_time_ns();
        let info = FpsInfo::starting_at(now);
        assert(info == FpsInfo::spec_starting_at(now));
        info
    }
}

} // verus!
