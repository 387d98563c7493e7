use vstd::prelude::*;

verus! {

/// A deadline that can be bumped forward in time by calling `reset`.
///
/// Instants are modelled as milliseconds on the monotonic clock, counted
/// from the immutable origin captured when the timeout is created. The
/// stored value is the deadline itself: the instant, in milliseconds
/// since the origin, at which the idle budget runs out. Callers read the
/// clock, hand the reading in as `now_ms`, and perform the actual
/// sleeping; every decision about the deadline is taken here.
#[derive(Debug, Clone, Copy, PartialEq, Eq, Structural)]
pub struct BumpTimeout {
    /// The deadline in force, in milliseconds since the origin.
    pub millis: u64,
}

/// What a waiter must do after sleeping up to a deadline it had
/// previously observed.
#[derive(Debug, Clone, Copy, PartialEq, Eq, Structural)]
pub enum WaitStep {
    /// The deadline moved while the waiter slept: sleep again, up to the
    /// given instant (milliseconds since the origin), then check again.
    Sleep(u64),
    /// The deadline in force has been slept past: the wait is over.
    Done,
}

impl BumpTimeout {
    /// The deadline in force, as milliseconds since the origin.
    pub open spec fn deadline_millis(self) -> u64 {
        self.millis
    }

    /// The timeout as it stands after a reset performed `now_ms` after
    /// the origin with a fresh budget of `duration_ms`.
    pub open spec fn after_reset(self, now_ms: u64, duration_ms: u64) -> BumpTimeout {
        BumpTimeout { millis: ((now_ms + duration_ms) as u64) }
    }

    /// Whether the deadline has passed at the instant `now_ms`.
    pub open spec fn expired_at(self, now_ms: u64) -> bool {
        self.deadline_millis() <= now_ms
    }

    /// What a waiter that has just slept up to `slept_until_ms` must do
    /// next: sleep again towards a deadline that moved, or stop.
    pub open spec fn wait_step_spec(self, slept_until_ms: u64) -> WaitStep {
        if self.deadline_millis() > slept_until_ms {
            WaitStep::Sleep(self.deadline_millis())
        } else {
            WaitStep::Done
        }
    }

    /// A fresh timeout whose deadline lies `duration_ms` after the
    /// origin it captures at this moment.
    pub fn new(duration_ms: u64) -> (r: Self)
        ensures
            r.deadline_millis() == duration_ms,
    {
        BumpTimeout { millis: duration_ms }
    }

    /// The idle budget as stored: the distance from the origin to the
    /// deadline in force.
    pub fn duration(&self) -> (r: u64)
        ensures
            r == self.deadline_millis(),
    {
        self.millis
    }

    /// The instant, in milliseconds since the origin, at which the idle
    /// budget runs out.
    pub fn deadline(&self) -> (r: u64)
        ensures
            r == self.deadline_millis(),
    {
        self.millis
    }

    /// The deadline as an instant for a sleeping call to aim at; equal
    /// to [`Self::deadline`] in this clock model.
    pub fn as_instant(&self) -> (r: u64)
        ensures
            r == self.deadline_millis(),
    {
        self.millis
    }

    /// Resets the deadline to the current time plus the given duration.
    ///
    /// Concurrent resets may race; last-write-wins is acceptable, and
    /// each completed reset is visible to any wait check made after it.
    pub fn reset(&mut self, now_ms: u64, duration_ms: u64)
        requires
            now_ms + duration_ms <= u64::MAX,
        ensures
            *final(self) == old(self).after_reset(now_ms, duration_ms),
            final(self).deadline_millis() == now_ms + duration_ms,
    {
        self.millis = now_ms + duration_ms;
    }

    /// One check of the wait loop, made after sleeping up to
    /// `slept_until_ms`: if the deadline advanced while the waiter
    /// slept, it must sleep again towards the new deadline; only a check
    /// that finds the deadline already reached ends the wait.
    pub fn wait_step(&self, slept_until_ms: u64) -> (r: WaitStep)
        ensures
            r == self.wait_step_spec(slept_until_ms),
    {
        if self.millis > slept_until_ms {
            WaitStep::Sleep(self.millis)
        } else {
            WaitStep::Done
        }
    }
}

/// A wait never wakes early: the loop only finishes on a check that
/// finds the deadline in force no later than the instant already slept
/// past, whatever resets happened in between.
pub proof fn wait_never_wakes_early(t: BumpTimeout, slept_until_ms: u64)
    requires
        t.wait_step_spec(slept_until_ms) is Done,
    ensures
        t.expired_at(slept_until_ms),
{
}

/// Resets are last-write-wins: whatever deadline an earlier reset
/// stored, a waiter still sleeping when a later reset lands is directed
/// to the later deadline, not the earlier one.
pub proof fn wait_observes_latest_reset(
    t: BumpTimeout,
    now1_ms: u64,
    d1_ms: u64,
    now2_ms: u64,
    d2_ms: u64,
    slept_until_ms: u64,
)
    requires
        now2_ms + d2_ms <= u64::MAX,
        slept_until_ms < now2_ms + d2_ms,
    ensures
        t.after_reset(now1_ms, d1_ms).after_reset(now2_ms, d2_ms).wait_step_spec(slept_until_ms)
            == WaitStep::Sleep((now2_ms + d2_ms) as u64),
{
}

} // verus!
