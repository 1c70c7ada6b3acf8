//! The arithmetic of frame pacing, over mathematical integers.
//!
//! [`TimerModel`] is what a [`crate::step_timer::StepTimer`] stands for, and
//! [`TimerModel::tick`] says in closed form what one sample of the counter
//! does to it.
use vstd::prelude::*;

verus! {

/// Canonical ticks in one second.
pub const TICKS_PER_SECOND: u64 = 10_000_000;

/// A canonical delta closer to the target step than this is taken to be the
/// target step: a quarter of a millisecond.
pub const SNAP_WINDOW_TICKS: u64 = 2_500;

/// The number of values a 64-bit counter can take.
pub open spec fn counter_range() -> nat {
    0x1_0000_0000_0000_0000
}

/// Counter units that passed between two readings of a 64-bit counter: the
/// plain difference where the counter moved forward, and the difference
/// modulo the counter's range where it did not.
pub open spec fn counter_delta(last: nat, now: nat) -> nat {
    if now >= last {
        (now - last) as nat
    } else {
        (now + counter_range() - last) as nat
    }
}

/// The longest delta that is taken at face value: a tenth of a second.
pub open spec fn max_delta(frequency: nat) -> nat {
    frequency / 10
}

/// A delta in counter units, cut down to [`max_delta`].
pub open spec fn clamp_delta(raw: nat, frequency: nat) -> nat {
    if raw > max_delta(frequency) {
        max_delta(frequency)
    } else {
        raw
    }
}

/// A delta in counter units, in canonical ticks.
pub open spec fn to_canonical(delta: nat, frequency: nat) -> nat {
    delta * (TICKS_PER_SECOND as nat) / frequency
}

/// Whether a canonical delta lies within the snap window of the target step.
pub open spec fn near_target(delta: nat, target: nat) -> bool {
    delta - target < SNAP_WINDOW_TICKS && target - delta < SNAP_WINDOW_TICKS
}

/// The target step for a delta within the snap window of it, the delta itself
/// otherwise.
pub open spec fn snap_to_target(delta: nat, target: nat) -> nat {
    if near_target(delta, target) {
        target
    } else {
        delta
    }
}

/// The state of a step timer.
pub struct TimerModel {
    /// Counter units per second.
    pub frequency: nat,
    /// The counter reading of the previous sample.
    pub last_time: nat,
    /// Canonical ticks handed to the most recent update.
    pub elapsed_ticks: nat,
    /// Canonical ticks handed to all updates so far.
    pub total_ticks: nat,
    /// Canonical ticks not yet consumed by a fixed step.
    pub leftover_ticks: nat,
    /// Updates so far.
    pub frame_count: nat,
    /// Ticks with an update counted in the last full second.
    pub frames_per_second: nat,
    /// Ticks with an update counted in the running second.
    pub frames_this_second: nat,
    /// Counter units gathered in the running second.
    pub second_counter: nat,
    /// Whether updates advance by the target step only.
    pub is_fixed_timestep: bool,
    /// The target step, in canonical ticks.
    pub target_elapsed_ticks: nat,
}

impl TimerModel {
    /// What holds of every timer: the counter has a frequency, the running
    /// second is shorter than a second, and no more ticks were counted than
    /// updates were made.
    pub open spec fn wf(self) -> bool {
        &&& self.frequency > 0
        &&& self.second_counter < self.frequency
        &&& self.frames_this_second <= self.frame_count
    }

    /// A timer made at counter reading `now`.
    pub open spec fn init(frequency: nat, now: nat) -> TimerModel {
        TimerModel {
            frequency,
            last_time: now,
            elapsed_ticks: 0,
            total_ticks: 0,
            leftover_ticks: 0,
            frame_count: 0,
            frames_per_second: 0,
            frames_this_second: 0,
            second_counter: 0,
            is_fixed_timestep: false,
            target_elapsed_ticks: (TICKS_PER_SECOND / 60) as nat,
        }
    }

    /// Counter units since the previous sample.
    pub open spec fn raw_delta(self, now: nat) -> nat {
        counter_delta(self.last_time, now)
    }

    /// Canonical ticks since the previous sample, after the clamp.
    pub open spec fn canonical_delta(self, now: nat) -> nat {
        to_canonical(clamp_delta(self.raw_delta(now), self.frequency), self.frequency)
    }

    /// Canonical ticks that a sample at `now` adds to the simulation: the
    /// clamped delta, snapped to the target step in fixed mode.
    pub open spec fn step_delta(self, now: nat) -> nat {
        if self.is_fixed_timestep {
            snap_to_target(self.canonical_delta(now), self.target_elapsed_ticks)
        } else {
            self.canonical_delta(now)
        }
    }

    /// Updates that a sample at `now` makes: in fixed mode as many as target
    /// steps fit into the leftover and the delta together, else one.
    pub open spec fn updates(self, now: nat) -> nat {
        if self.is_fixed_timestep {
            (self.leftover_ticks + self.step_delta(now)) / self.target_elapsed_ticks
        } else {
            1
        }
    }

    /// Canonical ticks handed to each update that a sample at `now` makes.
    pub open spec fn update_elapsed(self, now: nat) -> nat {
        if self.is_fixed_timestep {
            self.target_elapsed_ticks
        } else {
            self.step_delta(now)
        }
    }

    /// The timer after a sample at `now`.
    pub open spec fn tick(self, now: nat) -> TimerModel {
        let n = self.updates(now);
        let counter = self.second_counter + self.raw_delta(now);
        let counted = if n > 0 {
            self.frames_this_second + 1
        } else {
            self.frames_this_second
        };
        TimerModel {
            frequency: self.frequency,
            last_time: now,
            elapsed_ticks: if n > 0 {
                self.update_elapsed(now)
            } else {
                self.elapsed_ticks
            },
            total_ticks: self.total_ticks + n * self.update_elapsed(now),
            leftover_ticks: if self.is_fixed_timestep {
                (self.leftover_ticks + self.step_delta(now)) % self.target_elapsed_ticks
            } else {
                0
            },
            frame_count: self.frame_count + n,
            frames_per_second: if counter >= self.frequency {
                counted
            } else {
                self.frames_per_second
            },
            frames_this_second: if counter >= self.frequency {
                0
            } else {
                counted
            },
            second_counter: if counter >= self.frequency {
                counter % self.frequency
            } else {
                counter
            },
            is_fixed_timestep: self.is_fixed_timestep,
            target_elapsed_ticks: self.target_elapsed_ticks,
        }
    }

    /// Whether a sample at `now` can be taken: a fixed step has a length, and
    /// the counts of updates and of ticks stay within their machine types.
    pub open spec fn tick_fits(self, now: nat) -> bool {
        &&& self.is_fixed_timestep ==> self.target_elapsed_ticks > 0
        &&& self.tick(now).frame_count <= u32::MAX
        &&& self.tick(now).total_ticks <= u64::MAX
    }

    /// The timer after the elapsed time was reset at counter reading `now`.
    pub open spec fn reset(self, now: nat) -> TimerModel {
        TimerModel {
            last_time: now,
            leftover_ticks: 0,
            frames_per_second: 0,
            frames_this_second: 0,
            second_counter: 0,
            ..self
        }
    }
}

/// A clamped delta comes to no more than a tenth of a second of canonical
/// ticks, whatever the counter's frequency.
pub proof fn lemma_canonical_bound(delta: nat, frequency: nat)
    requires
        frequency > 0,
        delta <= max_delta(frequency),
    ensures
        to_canonical(delta, frequency) <= TICKS_PER_SECOND / 10,
{
    let scaled = delta * (TICKS_PER_SECOND as nat);
    let bound = frequency * 1_000_000;
    assert(scaled <= bound) by (nonlinear_arith)
        requires
            frequency > 0,
            delta <= frequency / 10,
            scaled == delta * 10_000_000,
            bound == frequency * 1_000_000,
    ;
    assert(scaled / frequency <= 1_000_000) by (nonlinear_arith)
        requires
            frequency > 0,
            scaled <= frequency * 1_000_000,
    ;
}

/// Where `steps` whole steps fit into `sum`, the quotient is at least `steps`.
pub proof fn lemma_steps_fit(sum: nat, step: nat, steps: nat)
    by (nonlinear_arith)
    requires
        step > 0,
        steps * step <= sum,
    ensures
        steps <= sum / step,
        steps * step <= (sum / step) * step,
{
}

/// What is left of `sum` after `steps` whole steps, if less than a step, is
/// the remainder, and `steps` is the quotient.
pub proof fn lemma_steps_exact(sum: nat, step: nat, steps: nat)
    by (nonlinear_arith)
    requires
        step > 0,
        steps * step <= sum,
        sum - steps * step < step,
    ensures
        steps == sum / step,
        sum - steps * step == sum % step,
{
}

/// A sample keeps a timer in order, never takes back an update or a tick
/// handed out, and in fixed mode leaves less than one step over.
pub proof fn lemma_tick_keeps_order(t: TimerModel, now: nat)
    requires
        t.wf(),
        t.is_fixed_timestep ==> t.target_elapsed_ticks > 0,
    ensures
        t.tick(now).wf(),
        t.tick(now).frame_count >= t.frame_count,
        t.tick(now).total_ticks >= t.total_ticks,
        t.is_fixed_timestep ==> t.tick(now).leftover_ticks < t.target_elapsed_ticks,
        !t.is_fixed_timestep ==> t.tick(now).leftover_ticks == 0,
        t.tick(now).frame_count > t.frame_count ==> t.tick(now).elapsed_ticks == t.update_elapsed(
            now,
        ),
{
    let counter = t.second_counter + t.raw_delta(now);
    if counter >= t.frequency {
        assert(counter % t.frequency < t.frequency) by (nonlinear_arith)
            requires
                t.frequency > 0,
        ;
    }
    if t.is_fixed_timestep {
        let sum = t.leftover_ticks + t.step_delta(now);
        assert(sum % t.target_elapsed_ticks < t.target_elapsed_ticks) by (nonlinear_arith)
            requires
                t.target_elapsed_ticks > 0,
        ;
    }
    assert(t.updates(now) * t.update_elapsed(now) >= 0) by (nonlinear_arith);
}

/// In fixed mode one sample makes as many updates as whole target steps fit
/// into the leftover and the canonical delta together, and each of them
/// advances the simulation by exactly the target step. This holds of every
/// delta that the snap leaves alone, and of a snapped one where the snap does
/// not change how many steps fit.
pub proof fn lemma_fixed_update_count(t: TimerModel, now: nat)
    requires
        t.wf(),
        t.is_fixed_timestep,
        t.target_elapsed_ticks > 0,
        ({
            let delta = t.canonical_delta(now);
            let step = t.target_elapsed_ticks;
            !near_target(delta, step) || (t.leftover_ticks + delta) / step == (t.leftover_ticks
                + step) / step
        }),
    ensures
        t.updates(now) == (t.leftover_ticks + t.canonical_delta(now)) / t.target_elapsed_ticks,
        t.tick(now).frame_count == t.frame_count + t.updates(now),
        t.update_elapsed(now) == t.target_elapsed_ticks,
        t.updates(now) > 0 ==> t.tick(now).elapsed_ticks == t.target_elapsed_ticks,
        t.tick(now).total_ticks == t.total_ticks + t.updates(now) * t.target_elapsed_ticks,
{
}

/// Snap to target: in fixed mode, with less than one step left over, a delta
/// within the snap window of the target step makes exactly one update, of
/// exactly the target step, and the leftover stays what it was.
pub proof fn lemma_snap_single_update(t: TimerModel, now: nat)
    requires
        t.wf(),
        t.is_fixed_timestep,
        t.leftover_ticks < t.target_elapsed_ticks,
        near_target(t.canonical_delta(now), t.target_elapsed_ticks),
    ensures
        t.updates(now) == 1,
        t.tick(now).frame_count == t.frame_count + 1,
        t.tick(now).elapsed_ticks == t.target_elapsed_ticks,
        t.tick(now).total_ticks == t.total_ticks + t.target_elapsed_ticks,
        t.tick(now).leftover_ticks == t.leftover_ticks,
{
    let step = t.target_elapsed_ticks;
    let sum = t.leftover_ticks + step;
    assert(1 * step == step) by (nonlinear_arith);
    lemma_steps_exact(sum, step, 1);
}

/// Clamp: a stall of any length above a tenth of a second does to the
/// simulation exactly what a delta of a tenth of a second does. (The
/// frame-rate window is another matter: it counts the counter units that
/// really passed.)
pub proof fn lemma_clamp_absorbs_stall(t: TimerModel, stalled: nat, limit: nat)
    requires
        t.raw_delta(stalled) > max_delta(t.frequency),
        t.raw_delta(limit) == max_delta(t.frequency),
    ensures
        t.step_delta(stalled) == t.step_delta(limit),
        t.updates(stalled) == t.updates(limit),
        t.update_elapsed(stalled) == t.update_elapsed(limit),
        t.tick(stalled).elapsed_ticks == t.tick(limit).elapsed_ticks,
        t.tick(stalled).total_ticks == t.tick(limit).total_ticks,
        t.tick(stalled).leftover_ticks == t.tick(limit).leftover_ticks,
        t.tick(stalled).frame_count == t.tick(limit).frame_count,
{
}

/// Frame-rate window: the frames per second change only when the running
/// second reaches a full second of counter units. At that moment they take
/// the count of the running second, which starts again at zero and keeps what
/// the counter ran past the second; before it, the running count grows by one
/// for a sample that made an update.
pub proof fn lemma_fps_window(t: TimerModel, now: nat)
    requires
        t.wf(),
    ensures
        ({
            let counter = t.second_counter + t.raw_delta(now);
            let counted = t.frames_this_second + if t.updates(now) > 0 {
                1nat
            } else {
                0nat
            };
            &&& counter < t.frequency ==> {
                &&& t.tick(now).frames_per_second == t.frames_per_second
                &&& t.tick(now).frames_this_second == counted
                &&& t.tick(now).second_counter == counter
            }
            &&& counter >= t.frequency ==> {
                &&& t.tick(now).frames_per_second == counted
                &&& t.tick(now).frames_this_second == 0
                &&& t.tick(now).second_counter == counter % t.frequency
            }
            &&& t.tick(now).second_counter < t.frequency
        }),
{
    let counter = t.second_counter + t.raw_delta(now);
    assert(counter % t.frequency < t.frequency) by (nonlinear_arith)
        requires
            t.frequency > 0,
    ;
}

} // verus!
