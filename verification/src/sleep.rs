//! The decisions of a sleep that ends at a deadline.
//!
//! Native delays are coarse and may overshoot, so a sleep has two phases,
//! entered in order. While the deadline is more than a margin away, the
//! coarse phase asks for a native delay that stops a margin short of it. The
//! spin phase then closes the gap by polling the clock. The sleeping thread
//! reads the clock, hands the reading to [`SleepUntil::step`], and carries
//! out the action that comes back, until that action is to return.

use vstd::prelude::*;
use crate::backend::DelayBackend;
use crate::timebase::Timestamp;

verus! {

/// The margin, in nanoseconds, that coarse delays keep clear of the deadline
/// and that is left to polling.
pub const MIN_SPIN_PERIOD: u64 = 500_000;

/// Nanoseconds in one unit of a native relative delay.
pub const DELAY_UNIT: u64 = 100;

/// The phase a sleep is in.
#[derive(Clone, Copy, Debug, PartialEq, Eq)]
pub enum SleepPhase {
    /// Native delays are still in order.
    Coarse,
    /// Only polling is left; there is no way back to native delays.
    Spin,
}

/// What the sleeping thread does next.
#[derive(Clone, Copy, Debug, PartialEq, Eq)]
pub enum SleepAction {
    /// Issue a native delay through `backend`, then read the clock again.
    /// `relative` is the delay in native units, negative as the native
    /// convention for relative times has it.
    Delay { backend: DelayBackend, relative: i64 },
    /// Hint the processor that this is a busy-wait, then read the clock
    /// again.
    Spin,
    /// The deadline is reached: return to the caller.
    Return,
}

/// A sleep under way: its deadline, the backend through which it delays, and
/// the phase it has reached.
#[derive(Clone, Copy, Debug, PartialEq, Eq)]
pub struct SleepUntil {
    /// The deadline.
    pub target: Timestamp,
    /// The backend through which coarse delays are issued.
    pub backend: DelayBackend,
    /// The phase reached so far.
    pub phase: SleepPhase,
}

/// A duration in nanoseconds as a native relative delay: the number of delay
/// units rounded up, so that the delay is never shorter than asked, and
/// negated.
pub open spec fn relative_delay(nanoseconds: u64) -> i64 {
    (-((nanoseconds + (DELAY_UNIT - 1)) / (DELAY_UNIT as int))) as i64
}

/// Whether a coarse delay is in order at the reading `now`: the deadline is
/// more than the margin away.
pub open spec fn coarse_delay_due(target: Timestamp, now: Timestamp) -> bool {
    now + MIN_SPIN_PERIOD < target
}

/// The action that a sleep in `phase` takes at the reading `now`.
pub open spec fn next_action(
    phase: SleepPhase,
    backend: DelayBackend,
    target: Timestamp,
    now: Timestamp,
) -> SleepAction {
    if phase == SleepPhase::Coarse && coarse_delay_due(target, now) {
        SleepAction::Delay {
            backend,
            relative: relative_delay((target - now - MIN_SPIN_PERIOD) as u64),
        }
    } else if now < target {
        SleepAction::Spin
    } else {
        SleepAction::Return
    }
}

/// The phase that a sleep is in once it has decided on `action`: it stays
/// coarse as long as it delays, and has left the coarse phase for good with
/// any other action.
pub open spec fn phase_after(action: SleepAction) -> SleepPhase {
    if action is Delay {
        SleepPhase::Coarse
    } else {
        SleepPhase::Spin
    }
}

/// Converts a duration in nanoseconds to a native relative delay.
pub fn to_relative_delay(nanoseconds: u64) -> (r: i64)
    ensures
        r == relative_delay(nanoseconds),
{
    let whole: u64 = nanoseconds / DELAY_UNIT;
    let units: u64 = if nanoseconds % DELAY_UNIT == 0 {
        whole
    } else {
        whole + 1
    };
    -(units as i64)
}

/// Begins a sleep that ends when the clock reaches `target`, with coarse
/// delays issued through `backend`.
pub fn sleep_until(target: Timestamp, backend: DelayBackend) -> (r: SleepUntil)
    ensures
        r == (SleepUntil { target, backend, phase: SleepPhase::Coarse }),
{
    SleepUntil { target, backend, phase: SleepPhase::Coarse }
}

impl SleepUntil {
    /// Decides what to do at the clock reading `now`.
    ///
    /// The answer is to return exactly when `now` has reached the deadline.
    /// Before that it is a native delay while the sleep is in its coarse phase
    /// and the deadline is more than the margin away, and a spin otherwise.
    /// The first answer that is no delay ends the coarse phase.
    pub fn step(&mut self, now: Timestamp) -> (action: SleepAction)
        ensures
            action == next_action(old(self).phase, old(self).backend, old(self).target, now),
            action is Return <==> now >= old(self).target,
            final(self).phase == phase_after(action),
            final(self).target == old(self).target,
            final(self).backend == old(self).backend,
    {
        let coarse = match self.phase {
            SleepPhase::Coarse => true,
            SleepPhase::Spin => false,
        };
        if coarse && now < self.target && self.target - now > MIN_SPIN_PERIOD {
            let remaining: u64 = self.target - now - MIN_SPIN_PERIOD;
            SleepAction::Delay { backend: self.backend, relative: to_relative_delay(remaining) }
        } else {
            self.phase = SleepPhase::Spin;
            if now < self.target {
                SleepAction::Spin
            } else {
                SleepAction::Return
            }
        }
    }
}

/// A sleep returns at a clock reading if and only if that reading has reached
/// the deadline, in either phase and with either backend.
pub proof fn lemma_returns_exactly_at_deadline(
    phase: SleepPhase,
    backend: DelayBackend,
    target: Timestamp,
    now: Timestamp,
)
    ensures
        next_action(phase, backend, target, now) is Return <==> now >= target,
{
}

/// A sleep whose deadline has passed when it begins asks for no delay and no
/// spin: its first decision is to return.
pub proof fn lemma_past_deadline_returns_at_once(
    backend: DelayBackend,
    target: Timestamp,
    now: Timestamp,
)
    requires
        target <= now,
    ensures
        next_action(SleepPhase::Coarse, backend, target, now) == SleepAction::Return,
{
}

/// The phases are entered in order: a sleep that has left the coarse phase
/// never delays again and stays in the spin phase, whatever the clock reads.
pub proof fn lemma_no_way_back_to_coarse(backend: DelayBackend, target: Timestamp, now: Timestamp)
    ensures
        !(next_action(SleepPhase::Spin, backend, target, now) is Delay),
        phase_after(next_action(SleepPhase::Spin, backend, target, now)) == SleepPhase::Spin,
{
}

/// Polling begins only inside the margin: a sleep that leaves the coarse
/// phase with a spin is at most the margin away from its deadline.
pub proof fn lemma_spin_begins_inside_margin(
    backend: DelayBackend,
    target: Timestamp,
    now: Timestamp,
)
    requires
        next_action(SleepPhase::Coarse, backend, target, now) == SleepAction::Spin,
    ensures
        0 < target - now <= MIN_SPIN_PERIOD,
{
}

/// A relative delay is negative or zero, covers the duration asked for, and
/// exceeds it by less than one delay unit.
pub proof fn lemma_relative_delay_rounds_up(nanoseconds: u64)
    ensures
        relative_delay(nanoseconds) <= 0,
        -relative_delay(nanoseconds) * DELAY_UNIT >= nanoseconds,
        -relative_delay(nanoseconds) * DELAY_UNIT < nanoseconds + DELAY_UNIT,
        nanoseconds > 0 ==> relative_delay(nanoseconds) < 0,
{
}

/// A coarse delay that lasts exactly as long as asked ends no earlier than
/// the margin before the deadline, and before the deadline itself.
pub proof fn lemma_coarse_delay_stops_short(
    backend: DelayBackend,
    target: Timestamp,
    now: Timestamp,
)
    requires
        coarse_delay_due(target, now),
    ensures
        next_action(SleepPhase::Coarse, backend, target, now) is Delay,
        next_action(SleepPhase::Coarse, backend, target, now)->backend == backend,
        next_action(SleepPhase::Coarse, backend, target, now)->relative < 0,
        target - MIN_SPIN_PERIOD <= now + (-next_action(
            SleepPhase::Coarse,
            backend,
            target,
            now,
        )->relative) * DELAY_UNIT < target,
{
    lemma_relative_delay_rounds_up((target - now - MIN_SPIN_PERIOD) as u64);
}

} // verus!
