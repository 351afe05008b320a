use vstd::prelude::*;

verus! {

use vstd::arithmetic::div_mod::{
    lemma_add_mod_noop, lemma_add_mod_noop_right, lemma_fundamental_div_mod_converse,
    lemma_hoist_over_denominator, lemma_mod_bound, lemma_mod_breakdown,
    lemma_mod_multiples_vanish, lemma_small_mod,
};
use vstd::arithmetic::mul::{lemma_mul_is_commutative, lemma_mul_nonnegative};

use crate::clip::{Clip, ClipId};
use crate::clock::{advanced_index, frames_elapsed, residual_time, AnimationState};
use crate::driver::switched_state;
use crate::mirror::{mirrored_after, rising_left, MirrorKeys};
use crate::selector::{in_dead_zone, selected_clip, ActorIntent, SelectorConfig};

/// The length of one full pass through a clip, in time units.
pub open spec fn cycle_len(duration: int, count: int) -> int {
    count * duration
}

/// A clock position flattened to a single time offset inside the cycle:
/// the time the displayed frames before this one took, plus the time
/// carried inside the displayed frame.
pub open spec fn clock_phase(index: int, elapsed: int, duration: int) -> int {
    index * duration + elapsed
}

/// The clock positions reached by feeding each delta of a sequence to the
/// clock in turn.
pub open spec fn run_clock(
    index: int,
    elapsed: int,
    deltas: Seq<int>,
    duration: int,
    count: int,
) -> (int, int)
    decreases deltas.len(),
{
    if deltas.len() == 0 {
        (index, elapsed)
    } else {
        run_clock(
            advanced_index(index, elapsed, deltas[0], duration, count),
            residual_time(elapsed, deltas[0], duration),
            deltas.skip(1),
            duration,
            count,
        )
    }
}

/// The cumulative time of a sequence of deltas.
pub open spec fn delta_sum(deltas: Seq<int>) -> int
    decreases deltas.len(),
{
    if deltas.len() == 0 {
        0
    } else {
        deltas[0] + delta_sum(deltas.skip(1))
    }
}

/// Every delta of the sequence is a forward step in time.
pub open spec fn all_nonneg(deltas: Seq<int>) -> bool {
    forall|i: int| 0 <= i < deltas.len() ==> deltas[i] >= 0
}

/// The carried time after an advance is nonnegative and strictly below
/// one frame, whatever nonnegative delta arrives: the clock cannot drift.
pub proof fn lemma_no_drift(elapsed: int, delta: int, duration: int)
    requires
        0 < duration,
    ensures
        0 <= residual_time(elapsed, delta, duration) < duration,
{
    lemma_mod_bound(elapsed + delta, duration);
}

/// The frame index after an advance always addresses a real frame of the
/// clip, whatever delta arrives.
pub proof fn lemma_index_in_bounds(
    index: int,
    elapsed: int,
    delta: int,
    duration: int,
    count: int,
)
    requires
        0 < duration,
        0 < count,
    ensures
        0 <= advanced_index(index, elapsed, delta, duration, count) < count,
{
    lemma_mod_bound(index + frames_elapsed(elapsed, delta, duration), count);
}

/// One advance moves the flattened clock position forward by exactly the
/// delta, modulo the cycle length: frames and carried time are two views
/// of one position, and no time is lost or invented between them.
pub proof fn lemma_advance_is_phase_addition(
    index: int,
    elapsed: int,
    delta: int,
    duration: int,
    count: int,
)
    requires
        0 < duration,
        0 < count,
        0 <= index < count,
        0 <= elapsed,
        0 <= delta,
    ensures
        clock_phase(
            advanced_index(index, elapsed, delta, duration, count),
            residual_time(elapsed, delta, duration),
            duration,
        ) == (clock_phase(index, elapsed, duration) + delta) % cycle_len(duration, count),
{
    let t = elapsed + delta;
    let q = t / duration;
    let r = t % duration;
    let x = index * duration + t;
    lemma_mul_nonnegative(index, duration);
    lemma_mod_breakdown(x, duration, count);
    assert(x % (duration * count) == duration * ((x / duration) % count) + x % duration);
    lemma_mul_is_commutative(index, duration);
    lemma_mod_multiples_vanish(index, t, duration);
    assert(x % duration == r);
    lemma_hoist_over_denominator(t, index, duration as nat);
    assert(x / duration == index + q);
    lemma_mul_is_commutative(duration, (index + q) % count);
    lemma_mul_is_commutative(duration, count);
}

/// Feeding a whole sequence of deltas to the clock moves the flattened
/// position forward by their sum, modulo the cycle length.
pub proof fn lemma_run_clock_phase(
    index: int,
    elapsed: int,
    deltas: Seq<int>,
    duration: int,
    count: int,
)
    requires
        0 < duration,
        0 < count,
        0 <= index < count,
        0 <= elapsed < duration,
        all_nonneg(deltas),
    ensures
        ({
            let (end_index, end_elapsed) = run_clock(index, elapsed, deltas, duration, count);
            &&& 0 <= end_index < count
            &&& 0 <= end_elapsed < duration
            &&& clock_phase(end_index, end_elapsed, duration) == (clock_phase(
                index,
                elapsed,
                duration,
            ) + delta_sum(deltas)) % cycle_len(duration, count)
        }),
    decreases deltas.len(),
{
    let cycle = cycle_len(duration, count);
    let phase = clock_phase(index, elapsed, duration);
    if deltas.len() == 0 {
        assert(phase < cycle) by (nonlinear_arith)
            requires
                0 <= index < count,
                0 <= elapsed < duration,
                phase == index * duration + elapsed,
                cycle == count * duration,
        ;
        assert(0 <= phase) by (nonlinear_arith)
            requires
                0 <= index,
                0 <= elapsed,
                0 < duration,
                phase == index * duration + elapsed,
        ;
        lemma_small_mod(phase as nat, cycle as nat);
    } else {
        let first = deltas[0];
        let next_index = advanced_index(index, elapsed, first, duration, count);
        let next_elapsed = residual_time(elapsed, first, duration);
        lemma_advance_is_phase_addition(index, elapsed, first, duration, count);
        lemma_index_in_bounds(index, elapsed, first, duration, count);
        lemma_no_drift(elapsed, first, duration);
        assert(all_nonneg(deltas.skip(1))) by {
            assert forall|i: int| 0 <= i < deltas.skip(1).len() implies deltas.skip(1)[i] >= 0 by {
                assert(deltas.skip(1)[i] == deltas[i + 1]);
            }
        }
        lemma_run_clock_phase(next_index, next_elapsed, deltas.skip(1), duration, count);
        let rest = delta_sum(deltas.skip(1));
        let (end_index, end_elapsed) = run_clock(index, elapsed, deltas, duration, count);
        assert(clock_phase(end_index, end_elapsed, duration) == ((phase + first) % cycle + rest)
            % cycle);
        assert(cycle > 0) by (nonlinear_arith)
            requires
                0 < duration,
                0 < count,
                cycle == count * duration,
        ;
        lemma_add_mod_noop_right((phase + first) % cycle, rest, cycle);
        lemma_add_mod_noop(phase + first, rest, cycle);
        assert(((phase + first) % cycle + rest) % cycle == (phase + first + rest) % cycle);
    }
}

/// Full-cycle law: starting at any frame with no carried time, any run of
/// forward deltas whose total is a whole number of cycles brings the
/// frame index back to its starting value and leaves no carried time.
pub proof fn lemma_full_cycle_returns_to_start(
    index: int,
    deltas: Seq<int>,
    duration: int,
    count: int,
    n: int,
)
    requires
        0 < duration,
        0 < count,
        0 <= index < count,
        all_nonneg(deltas),
        n >= 1,
        delta_sum(deltas) == n * cycle_len(duration, count),
    ensures
        run_clock(index, 0, deltas, duration, count) == (index, 0int),
{
    let cycle = cycle_len(duration, count);
    let start = index * duration;
    lemma_run_clock_phase(index, 0, deltas, duration, count);
    let (end_index, end_elapsed) = run_clock(index, 0, deltas, duration, count);
    assert(cycle > 0) by (nonlinear_arith)
        requires
            0 < duration,
            0 < count,
            cycle == count * duration,
    ;
    lemma_mul_is_commutative(n, cycle);
    lemma_mod_multiples_vanish(n, start, cycle);
    assert((start + n * cycle) % cycle == start % cycle);
    assert(0 <= start < cycle) by (nonlinear_arith)
        requires
            0 <= index < count,
            0 < duration,
            start == index * duration,
            cycle == count * duration,
    ;
    lemma_small_mod(start as nat, cycle as nat);
    assert(clock_phase(end_index, end_elapsed, duration) == start);
    lemma_fundamental_div_mod_converse(start, duration, end_index, end_elapsed);
    lemma_fundamental_div_mod_converse(start, duration, index, 0);
}

/// Dead-zone law: while a side-view actor pushes sideways without a
/// vertical press and (when tracked) stands on the ground, any vertical
/// velocity inside the dead zone selects the run clip — never jump or
/// fall, so rest noise from the physics engine cannot make the clips
/// flicker.
pub proof fn lemma_dead_zone_selects_run(config: SelectorConfig, intent: ActorIntent)
    requires
        config.vel_epsilon >= 0,
        intent.horizontal_pressed,
        !intent.vertical_pressed,
        config.track_grounded ==> intent.grounded,
        in_dead_zone(intent.vertical_velocity as int, config.vel_epsilon as int),
    ensures
        selected_clip(config, intent) == ClipId::Run,
{
}

/// Clip-switch law: switching to a different registered clip resets the
/// phase completely, so the first frame shown is frame zero, and after
/// one advance the index is exactly the frames the delta covers from
/// zero — never a residual index carried over from the previous clip.
pub proof fn lemma_switch_resets_phase(
    state: AnimationState,
    clips: Map<ClipId, Clip>,
    target: ClipId,
    delta: int,
)
    requires
        target != state.current_clip,
        clips.contains_key(target),
        clips[target].frame_duration > 0,
        clips[target].frame_count > 0,
    ensures
        switched_state(state, clips, target).frame_index == 0,
        switched_state(state, clips, target).elapsed_in_frame == 0,
        advanced_index(
            0,
            0,
            delta,
            clips[target].frame_duration as int,
            clips[target].frame_count as int,
        ) == frames_elapsed(0, delta, clips[target].frame_duration as int) % (
        clips[target].frame_count as int),
{
}

/// Mirror law: a rising move-left edge mirrors the sprite whatever was
/// held before — in particular even when move-right was held in a prior
/// tick.
pub proof fn lemma_left_press_mirrors(mirrored: bool, keys: MirrorKeys)
    requires
        rising_left(keys),
    ensures
        mirrored_after(mirrored, keys),
{
}

/// Mirror law: keys merely staying held fire no edge, so while both
/// direction keys stay pressed the flag cannot change.
pub proof fn lemma_held_keys_keep_mirror(mirrored: bool, keys: MirrorKeys)
    requires
        keys.left_held,
        keys.right_held,
        keys.left_was_held,
        keys.right_was_held,
    ensures
        mirrored_after(mirrored, keys) == mirrored,
{
}

} // verus!
