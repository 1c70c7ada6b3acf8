//! The step timer: samples of a hardware counter in, simulation updates out.
use vstd::prelude::*;
use crate::pacing::{
    clamp_delta, lemma_canonical_bound, lemma_steps_exact, lemma_steps_fit, max_delta,
    TimerModel, SNAP_WINDOW_TICKS, TICKS_PER_SECOND,
};

verus! {

/// Paces simulation updates by the readings of a hardware counter that the
/// host hands in.
pub struct StepTimer {
    qpc_frequency: u64,
    qpc_last_time: u64,
    qpc_max_delta: u64,
    elapsed_ticks: u64,
    total_ticks: u64,
    leftover_ticks: u64,
    frame_count: u32,
    frames_per_second: u32,
    frames_this_second: u32,
    qpc_second_counter: u64,
    is_fixed_timestep: bool,
    target_elapsed_ticks: u64,
}

impl View for StepTimer {
    type V = TimerModel;

    closed spec fn view(&self) -> TimerModel {
        TimerModel {
            frequency: self.qpc_frequency as nat,
            last_time: self.qpc_last_time as nat,
            elapsed_ticks: self.elapsed_ticks as nat,
            total_ticks: self.total_ticks as nat,
            leftover_ticks: self.leftover_ticks as nat,
            frame_count: self.frame_count as nat,
            frames_per_second: self.frames_per_second as nat,
            frames_this_second: self.frames_this_second as nat,
            second_counter: self.qpc_second_counter as nat,
            is_fixed_timestep: self.is_fixed_timestep,
            target_elapsed_ticks: self.target_elapsed_ticks as nat,
        }
    }
}

impl StepTimer {
    /// Whether the timer is in order: its model is, and the clamp it keeps is
    /// the one that belongs to its frequency.
    pub closed spec fn wf(&self) -> bool {
        &&& self@.wf()
        &&& self.qpc_max_delta == max_delta(self.qpc_frequency as nat)
    }

    /// A timer for a counter of `frequency` units per second, made at counter
    /// reading `now`: in variable mode, with a target step of a sixtieth of a
    /// second.
    pub fn new(frequency: u64, now: u64) -> (timer: StepTimer)
        requires
            frequency > 0,
        ensures
            timer.wf(),
            timer@ == TimerModel::init(frequency as nat, now as nat),
    {
        StepTimer {
            qpc_frequency: frequency,
            qpc_last_time: now,
            qpc_max_delta: frequency / 10,
            elapsed_ticks: 0,
            total_ticks: 0,
            leftover_ticks: 0,
            frame_count: 0,
            frames_per_second: 0,
            frames_this_second: 0,
            qpc_second_counter: 0,
            is_fixed_timestep: false,
            target_elapsed_ticks: TICKS_PER_SECOND / 60,
        }
    }

    /// Canonical ticks that a sample at `now` adds to the simulation.
    fn step_delta(&self, now: u64) -> (delta: u64)
        requires
            self.wf(),
        ensures
            delta == self@.step_delta(now as nat),
            !self.is_fixed_timestep ==> delta <= TICKS_PER_SECOND / 10,
    {
        let raw: u64 = now.wrapping_sub(self.qpc_last_time);
        let clamped: u64 = if raw > self.qpc_max_delta {
            self.qpc_max_delta
        } else {
            raw
        };
        assert(clamped == clamp_delta(self@.raw_delta(now as nat), self@.frequency));
        proof {
            lemma_canonical_bound(clamped as nat, self.qpc_frequency as nat);
        }
        let scaled: u128 = clamped as u128 * TICKS_PER_SECOND as u128;
        let canonical: u64 = (scaled / self.qpc_frequency as u128) as u64;
        if self.is_fixed_timestep {
            let target: u64 = self.target_elapsed_ticks;
            let distance: u64 = if canonical >= target {
                canonical - target
            } else {
                target - canonical
            };
            if distance < SNAP_WINDOW_TICKS {
                target
            } else {
                canonical
            }
        } else {
            canonical
        }
    }

    /// Takes a sample of the counter and makes the updates that are due: in
    /// fixed mode one for each target step that the leftover and the new delta
    /// hold together, in variable mode exactly one. Each update is told the
    /// canonical ticks it advances the simulation by.
    pub fn tick<F: Fn(u64)>(&mut self, now: u64, update_func: F)
        requires
            old(self).wf(),
            old(self)@.tick_fits(now as nat),
            old(self)@.updates(now as nat) > 0 ==> forall|elapsed: u64|
                elapsed == old(self)@.update_elapsed(now as nat) ==> update_func.requires(
                    (elapsed,),
                ),
        ensures
            final(self).wf(),
            final(self)@ == old(self)@.tick(now as nat),
    {
        let raw: u64 = now.wrapping_sub(self.qpc_last_time);
        let delta: u64 = self.step_delta(now);
        self.qpc_last_time = now;
        let counter: u128 = self.qpc_second_counter as u128 + raw as u128;
        let last_frame_count: u32 = self.frame_count;

        if self.is_fixed_timestep {
            let target: u64 = self.target_elapsed_ticks;
            let ghost sum: nat = (self.leftover_ticks + delta) as nat;
            let ghost total: nat = self.total_ticks as nat;
            let mut pending: u128 = self.leftover_ticks as u128 + delta as u128;
            while pending >= target as u128
                invariant
                    target > 0,
                    target == self.target_elapsed_ticks,
                    update_func.requires((target,)) || sum / (target as nat) == 0,
                    last_frame_count <= self.frame_count,
                    (self.frame_count - last_frame_count) * target + pending == sum,
                    self.total_ticks == total + (self.frame_count - last_frame_count) * target,
                    last_frame_count + sum / (target as nat) <= u32::MAX,
                    total + (sum / (target as nat)) * target <= u64::MAX,
                    self.frame_count > last_frame_count ==> self.elapsed_ticks == target,
                    self.frame_count == last_frame_count ==> self.elapsed_ticks == old(
                        self,
                    ).elapsed_ticks,
                    self.qpc_frequency == old(self).qpc_frequency,
                    self.qpc_last_time == now,
                    self.qpc_max_delta == old(self).qpc_max_delta,
                    self.leftover_ticks == old(self).leftover_ticks,
                    self.frames_per_second == old(self).frames_per_second,
                    self.frames_this_second == old(self).frames_this_second,
                    self.qpc_second_counter == old(self).qpc_second_counter,
                    self.is_fixed_timestep == old(self).is_fixed_timestep,
                decreases pending,
            {
                proof {
                    let done: nat = (self.frame_count - last_frame_count) as nat;
                    assert((done + 1) * target == done * target + target) by (nonlinear_arith);
                    lemma_steps_fit(sum, target as nat, done + 1);
                }
                self.elapsed_ticks = target;
                self.total_ticks += target;
                pending -= target as u128;
                self.frame_count += 1;

                update_func(self.elapsed_ticks);
            }
            proof {
                lemma_steps_exact(
                    sum,
                    target as nat,
                    (self.frame_count - last_frame_count) as nat,
                );
            }
            self.leftover_ticks = pending as u64;
        } else {
            assert(1 * (delta as nat) == delta) by (nonlinear_arith);
            self.elapsed_ticks = delta;
            self.total_ticks += delta;
            self.leftover_ticks = 0;
            self.frame_count += 1;

            update_func(self.elapsed_ticks);
        }

        if self.frame_count != last_frame_count {
            self.frames_this_second += 1;
        }
        if counter >= self.qpc_frequency as u128 {
            self.frames_per_second = self.frames_this_second;
            self.frames_this_second = 0;
            self.qpc_second_counter = (counter % self.qpc_frequency as u128) as u64;
        } else {
            self.qpc_second_counter = counter as u64;
        }
    }

    /// Whether a sample at `now` can be taken: whether [`StepTimer::tick`]
    /// may be called with it.
    pub fn can_tick(&self, now: u64) -> (fits: bool)
        requires
            self.wf(),
        ensures
            fits == self@.tick_fits(now as nat),
    {
        let delta: u64 = self.step_delta(now);
        if self.is_fixed_timestep {
            let target: u64 = self.target_elapsed_ticks;
            if target == 0 {
                return false;
            }
            let sum: u128 = self.leftover_ticks as u128 + delta as u128;
            let steps: u128 = sum / target as u128;
            proof {
                assert(steps * target <= sum) by (nonlinear_arith)
                    requires
                        target > 0,
                        steps == sum / (target as u128),
                ;
            }
            steps <= (u32::MAX - self.frame_count) as u128 && steps * target as u128 <= (u64::MAX
                - self.total_ticks) as u128
        } else {
            assert(1 * (delta as nat) == delta) by (nonlinear_arith);
            self.frame_count < u32::MAX && delta <= u64::MAX - self.total_ticks
        }
    }

    /// Starts the measurement of elapsed time afresh at counter reading `now`:
    /// the leftover and the frame-rate window are emptied, so that time spent
    /// suspended is not counted. What was handed to updates so far stays.
    pub fn reset_elapsed_time(&mut self, now: u64)
        requires
            old(self).wf(),
        ensures
            final(self).wf(),
            final(self)@ == old(self)@.reset(now as nat),
    {
        self.qpc_last_time = now;

        self.leftover_ticks = 0;
        self.frames_per_second = 0;
        self.frames_this_second = 0;
        self.qpc_second_counter = 0;
    }

    /// Canonical ticks handed to the most recent update.
    pub fn get_elapsed_ticks(&self) -> (ticks: u64)
        ensures
            ticks == self@.elapsed_ticks,
    {
        self.elapsed_ticks
    }

    /// Canonical ticks handed to all updates so far.
    pub fn get_total_ticks(&self) -> (ticks: u64)
        ensures
            ticks == self@.total_ticks,
    {
        self.total_ticks
    }

    /// Updates made so far.
    pub fn get_frame_count(&self) -> (count: u32)
        ensures
            count == self@.frame_count,
    {
        self.frame_count
    }

    /// Ticks with an update that were counted in the last full second.
    pub fn get_frames_per_second(&self) -> (count: u32)
        ensures
            count == self@.frames_per_second,
    {
        self.frames_per_second
    }

    /// Chooses between fixed steps and variable steps. Nothing else changes.
    pub fn set_fixed_time_step(&mut self, is_fixed_timestep: bool)
        ensures
            final(self)@ == (TimerModel { is_fixed_timestep, ..old(self)@ }),
            old(self).wf() ==> final(self).wf(),
    {
        self.is_fixed_timestep = is_fixed_timestep;
    }

    /// Sets the length of a fixed step, in canonical ticks. Nothing else
    /// changes.
    pub fn set_target_elapsed_ticks(&mut self, target_elapsed: u64)
        ensures
            final(self)@ == (TimerModel {
                target_elapsed_ticks: target_elapsed as nat,
                ..old(self)@
            }),
            old(self).wf() ==> final(self).wf(),
    {
        self.target_elapsed_ticks = target_elapsed;
    }
}

} // verus!
