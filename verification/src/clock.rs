//! The fixed-timestep clock.
//!
//! Wall-clock time arrives in frames of irregular length. The accumulator
//! turns them into whole steps of simulated time and carries the remainder
//! over. Each step moves the estimate of the playback position forward; each
//! time the estimate passes the resync point, a sample of the playback source
//! corrects it.

use vstd::prelude::*;
use vstd::arithmetic::div_mod::{lemma_fundamental_div_mod, lemma_fundamental_div_mod_converse};
use crate::clients::PlaybackInfo;

verus! {

/// The three durations that govern the clock, in nanoseconds.
#[derive(Clone, Copy, Debug, PartialEq, Eq, Structural)]
pub struct ClockConfig {
    /// Simulated time per step.
    pub step_duration: u64,
    /// Simulated time from one resync point to the next.
    pub resync_interval: u64,
    /// The most that a single frame may add to the accumulator.
    pub max_frame_delta: u64,
}

impl ClockConfig {
    /// A step has a length.
    pub open spec fn wf(&self) -> bool {
        self.step_duration > 0
    }

    /// A configuration with the given durations; `None` exactly when the step
    /// would be empty.
    pub fn new(step_duration: u64, resync_interval: u64, max_frame_delta: u64) -> (config: Option<
        ClockConfig,
    >)
        ensures
            step_duration == 0 ==> config is None,
            step_duration > 0 ==> config == Some(
                ClockConfig { step_duration, resync_interval, max_frame_delta },
            ),
    {
        if step_duration == 0 {
            None
        } else {
            Some(ClockConfig { step_duration, resync_interval, max_frame_delta })
        }
    }

    /// Steps of one millisecond, a resync every five seconds, and frames
    /// counted for a quarter of a second at most.
    pub fn standard() -> (config: ClockConfig)
        ensures
            config == (ClockConfig {
                step_duration: 1_000_000,
                resync_interval: 5_000_000_000,
                max_frame_delta: 250_000_000,
            }),
            config.wf(),
    {
        ClockConfig {
            step_duration: 1_000_000,
            resync_interval: 5_000_000_000,
            max_frame_delta: 250_000_000,
        }
    }

    /// What a frame of length `delta` counts for.
    pub open spec fn clamped(&self, delta: nat) -> nat {
        if delta > self.max_frame_delta {
            self.max_frame_delta as nat
        } else {
            delta
        }
    }

    /// The steps that fall due when a frame of length `delta` meets a
    /// remainder of `carry`.
    pub open spec fn steps_due(&self, carry: nat, delta: nat) -> nat {
        (carry + self.clamped(delta)) / (self.step_duration as nat)
    }

    /// The remainder that is left when those steps are taken.
    pub open spec fn carry_left(&self, carry: nat, delta: nat) -> nat {
        (carry + self.clamped(delta)) % (self.step_duration as nat)
    }

    /// What a run of frames counts for in all.
    pub open spec fn counted_total(&self, deltas: Seq<nat>) -> nat
        decreases deltas.len(),
    {
        if deltas.len() == 0 {
            0
        } else {
            self.clamped(deltas[0]) + self.counted_total(deltas.drop_first())
        }
    }

    /// The steps that fall due over a run of frames, each starting from the
    /// remainder of the one before.
    pub open spec fn steps_over(&self, carry: nat, deltas: Seq<nat>) -> nat
        decreases deltas.len(),
    {
        if deltas.len() == 0 {
            0
        } else {
            self.steps_due(carry, deltas[0]) + self.steps_over(
                self.carry_left(carry, deltas[0]),
                deltas.drop_first(),
            )
        }
    }
}

/// The sum of a run of frame lengths.
pub open spec fn total_of(deltas: Seq<nat>) -> nat
    decreases deltas.len(),
{
    if deltas.len() == 0 {
        0
    } else {
        deltas[0] + total_of(deltas.drop_first())
    }
}

/// Time that has arrived but does not yet fill a step.
#[derive(Clone, Copy, Debug, PartialEq, Eq, Structural)]
pub struct Accumulator {
    pub carry: u64,
}

impl Accumulator {
    /// The remainder is smaller than a step.
    pub open spec fn wf(&self, config: &ClockConfig) -> bool {
        self.carry < config.step_duration
    }

    /// An accumulator that holds nothing.
    pub fn new() -> (acc: Accumulator)
        ensures
            acc.carry == 0,
    {
        Accumulator { carry: 0 }
    }

    /// Takes in a frame of length `frame_delta`, cut to the configured
    /// maximum, and hands out the whole steps that it completes.
    pub fn absorb(&mut self, config: &ClockConfig, frame_delta: u64) -> (steps: u64)
        requires
            config.wf(),
            old(self).wf(config),
        ensures
            steps == config.steps_due(old(self).carry as nat, frame_delta as nat),
            final(self).carry == config.carry_left(old(self).carry as nat, frame_delta as nat),
            final(self).wf(config),
    {
        let counted: u64 = if frame_delta > config.max_frame_delta {
            config.max_frame_delta
        } else {
            frame_delta
        };
        let budget: u128 = self.carry as u128 + counted as u128;
        let step: u128 = config.step_duration as u128;
        let steps: u128 = budget / step;
        let left: u128 = budget % step;
        proof {
            lemma_fundamental_div_mod(budget as int, step as int);
            assert(steps <= u64::MAX) by (nonlinear_arith)
                requires
                    budget == step * steps + left,
                    0 <= left,
                    step >= 1,
                    budget <= (step - 1) + u64::MAX,
                    0 <= steps,
            ;
        }
        self.carry = left as u64;
        steps as u64
    }
}

/// No time is lost or made between frames: over a run of frames the steps
/// that fall due are the whole steps in the remainder at the outset plus what
/// the frames count for.
pub proof fn law_steps_conserve_time(config: ClockConfig, carry: nat, deltas: Seq<nat>)
    requires
        config.wf(),
        carry < config.step_duration,
    ensures
        config.steps_over(carry, deltas) == (carry + config.counted_total(deltas)) / (
        config.step_duration as nat),
    decreases deltas.len(),
{
    let step = config.step_duration as int;
    if deltas.len() == 0 {
        assert(carry / (step as nat) == 0) by (nonlinear_arith)
            requires
                0 <= carry < step,
        ;
    } else {
        let rest = deltas.drop_first();
        let budget = (carry + config.clamped(deltas[0])) as int;
        let q = budget / step;
        let r = budget % step;
        lemma_fundamental_div_mod(budget, step);
        assert(0 <= r < step) by (nonlinear_arith)
            requires
                r == budget % step,
                step > 0,
        ;
        law_steps_conserve_time(config, r as nat, rest);
        // budget = step * q + r and r + rest = step * q2 + r2 give
        // budget + rest = step * (q + q2) + r2.
        let tail = (r + config.counted_total(rest)) as int;
        let q2 = tail / step;
        let r2 = tail % step;
        lemma_fundamental_div_mod(tail, step);
        assert(0 <= r2 < step) by (nonlinear_arith)
            requires
                r2 == tail % step,
                step > 0,
        ;
        assert(budget + config.counted_total(rest) == (q + q2) * step + r2) by (nonlinear_arith)
            requires
                budget == step * q + r,
                r + config.counted_total(rest) == step * q2 + r2,
        ;
        lemma_fundamental_div_mod_converse(
            budget + config.counted_total(rest),
            step,
            q + q2,
            r2,
        );
    }
}

/// Frames of which none is longer than the configured maximum count in full:
/// starting from an empty accumulator, the steps taken over the run are the
/// total length of the frames divided by the step, rounded down.
pub proof fn law_steps_match_elapsed_time(config: ClockConfig, deltas: Seq<nat>)
    requires
        config.wf(),
        forall|i: int| 0 <= i < deltas.len() ==> deltas[i] <= config.max_frame_delta,
    ensures
        config.counted_total(deltas) == total_of(deltas),
        config.steps_over(0, deltas) == total_of(deltas) / (config.step_duration as nat),
{
    lemma_short_frames_count_in_full(config, deltas);
    law_steps_conserve_time(config, 0, deltas);
}

proof fn lemma_short_frames_count_in_full(config: ClockConfig, deltas: Seq<nat>)
    requires
        forall|i: int| 0 <= i < deltas.len() ==> deltas[i] <= config.max_frame_delta,
    ensures
        config.counted_total(deltas) == total_of(deltas),
    decreases deltas.len(),
{
    if deltas.len() > 0 {
        let rest = deltas.drop_first();
        assert forall|i: int| 0 <= i < rest.len() implies rest[i] <= config.max_frame_delta by {
            assert(rest[i] == deltas[i + 1]);
        }
        lemma_short_frames_count_in_full(config, rest);
    }
}

/// The clock's estimate of where playback stands.
#[derive(Clone, Copy, Debug, PartialEq, Eq, Structural)]
pub struct EngineState {
    /// The estimated playback position.
    pub estimated_time: u64,
    /// The position beyond which the source is asked again.
    pub next_resync_at: u64,
    /// Whether the source said at the last resync that playback is paused.
    pub paused: bool,
}

/// `a + b`, held at the largest time that can be told.
pub open spec fn capped_sum(a: u64, b: u64) -> u64 {
    if a + b > u64::MAX {
        u64::MAX
    } else {
        (a + b) as u64
    }
}

impl EngineState {
    /// The state at the start of a session: at `position`, playing, with a
    /// resync due as soon as time moves.
    pub open spec fn starting_at(position: u64) -> EngineState {
        EngineState { estimated_time: position, next_resync_at: 0, paused: false }
    }

    /// The state one step of length `step` later.
    pub open spec fn ticked(self, step: u64) -> EngineState {
        EngineState {
            estimated_time: capped_sum(self.estimated_time, step),
            next_resync_at: self.next_resync_at,
            paused: self.paused,
        }
    }

    /// The state `n` steps later.
    pub open spec fn ticked_times(self, step: u64, n: nat) -> EngineState
        decreases n,
    {
        if n == 0 {
            self
        } else {
            self.ticked_times(step, (n - 1) as nat).ticked(step)
        }
    }

    /// The estimate has passed the resync point.
    pub open spec fn resync_due(self) -> bool {
        self.estimated_time > self.next_resync_at
    }

    /// While paused, the estimate has not passed the resync point.
    pub open spec fn held_while_paused(self) -> bool {
        self.paused ==> self.estimated_time <= self.next_resync_at
    }

    /// The state after a resync that obtained `sample`.
    ///
    /// The estimate takes the reported position where there is one. While
    /// playback goes on, the resync point moves one interval ahead. While it
    /// is paused the resync point stays, and an estimate that lies beyond it
    /// is taken back to it.
    pub open spec fn reconciled(self, sample: PlaybackInfo, resync_interval: u64) -> EngineState {
        let adopted = match sample.position {
            Some(position) => position,
            None => self.estimated_time,
        };
        if sample.playing {
            EngineState {
                estimated_time: adopted,
                next_resync_at: capped_sum(self.next_resync_at, resync_interval),
                paused: false,
            }
        } else {
            EngineState {
                estimated_time: if adopted > self.next_resync_at {
                    self.next_resync_at
                } else {
                    adopted
                },
                next_resync_at: self.next_resync_at,
                paused: true,
            }
        }
    }

    /// Starts the estimate at `position`.
    pub fn new(position: u64) -> (state: EngineState)
        ensures
            state == EngineState::starting_at(position),
    {
        EngineState { estimated_time: position, next_resync_at: 0, paused: false }
    }

    /// The state one step of length `step` later. A step never takes the
    /// estimate back.
    pub fn tick(self, step: u64) -> (next: EngineState)
        ensures
            next == self.ticked(step),
            next.estimated_time >= self.estimated_time,
    {
        EngineState {
            estimated_time: self.estimated_time.saturating_add(step),
            next_resync_at: self.next_resync_at,
            paused: self.paused,
        }
    }

    /// Whether the estimate has passed the resync point, so that the playback
    /// source has to be asked.
    pub fn due(&self) -> (due: bool)
        ensures
            due == self.resync_due(),
    {
        self.estimated_time > self.next_resync_at
    }

    /// The state after a resync that obtained `sample`.
    pub fn reconcile(self, sample: &PlaybackInfo, resync_interval: u64) -> (next: EngineState)
        ensures
            next == self.reconciled(*sample, resync_interval),
            next.held_while_paused(),
    {
        let adopted = match sample.position {
            Some(position) => position,
            None => self.estimated_time,
        };
        if sample.playing {
            EngineState {
                estimated_time: adopted,
                next_resync_at: self.next_resync_at.saturating_add(resync_interval),
                paused: false,
            }
        } else {
            EngineState {
                estimated_time: if adopted > self.next_resync_at {
                    self.next_resync_at
                } else {
                    adopted
                },
                next_resync_at: self.next_resync_at,
                paused: true,
            }
        }
    }
}

/// Steps only ever move the estimate forward, and leave the resync point and
/// the pause flag alone.
pub proof fn law_ticks_never_rewind(state: EngineState, step: u64, n: nat)
    ensures
        state.ticked_times(step, n).estimated_time >= state.estimated_time,
        state.ticked_times(step, n).next_resync_at == state.next_resync_at,
        state.ticked_times(step, n).paused == state.paused,
        state.estimated_time + n * step <= u64::MAX ==> state.ticked_times(step, n).estimated_time
            == state.estimated_time + n * step,
    decreases n,
{
    if n > 0 {
        law_ticks_never_rewind(state, step, (n - 1) as nat);
        assert(n * step == (n - 1) * step + step) by (nonlinear_arith);
        assert((n - 1) * step >= 0) by (nonlinear_arith)
            requires
                n >= 1,
                step >= 0,
        ;
    }
}

/// A resync never leaves a paused estimate beyond the resync point, and never
/// moves the resync point back: while playback is paused the steps that
/// follow bring the estimate to the resync point and no further before the
/// source is asked again.
pub proof fn law_resync_holds_paused_estimate(
    state: EngineState,
    sample: PlaybackInfo,
    resync_interval: u64,
)
    ensures
        state.reconciled(sample, resync_interval).held_while_paused(),
        state.reconciled(sample, resync_interval).paused == !sample.playing,
        state.reconciled(sample, resync_interval).next_resync_at >= state.next_resync_at,
        !sample.playing ==> state.reconciled(sample, resync_interval).next_resync_at
            == state.next_resync_at,
{
}

} // verus!
