use vstd::prelude::*;

verus! {

use crate::clip::{Clip, ClipId, Direction};
use crate::clock::{advance, advanced_index, render_index, residual_time, AnimationState};
use crate::facing::{any_movement, resolve_direction, resolved_direction, select_top_down,
    selected_top_down, MoveKeys};
use crate::mirror::{mirrored_after, update_mirror, MirrorKeys};
use crate::registry::ClipRegistry;
use crate::selector::{select, selected_clip, ActorIntent, SelectorConfig};

/// The actor's state stays consistent with the registry: whenever its
/// current clip is registered, the frame index and carried time lie
/// inside that clip's bounds.
pub open spec fn state_consistent(state: AnimationState, clips: Map<ClipId, Clip>) -> bool {
    clips.contains_key(state.current_clip) ==> state.in_frame_bounds(clips[state.current_clip])
}

/// The state after a clip switch to `target` is requested: an actual
/// change to a registered clip resets the phase completely; a repeated
/// target or an unregistered one changes nothing.
pub open spec fn switched_state(
    state: AnimationState,
    clips: Map<ClipId, Clip>,
    target: ClipId,
) -> AnimationState {
    if target != state.current_clip && clips.contains_key(target) {
        AnimationState {
            current_clip: target,
            frame_index: 0,
            elapsed_in_frame: 0,
            facing_mirrored: state.facing_mirrored,
        }
    } else {
        state
    }
}

/// The frameset the renderer must newly bind after the switch, if any:
/// only an actual clip change asks for one, and only when the target's
/// asset differs from the one already bound.
pub open spec fn swap_request(
    state: AnimationState,
    clips: Map<ClipId, Clip>,
    target: ClipId,
    bound_asset: u64,
) -> Option<u64> {
    if target != state.current_clip && clips.contains_key(target) && clips[target].asset_id
        != bound_asset {
        Some(clips[target].asset_id)
    } else {
        None
    }
}

/// Makes `target` the playing clip if it differs from the current one and
/// is registered, resetting the phase so no frame index carries over from
/// the previous clip. An unregistered target is a harmless no-op: the
/// previous clip keeps playing and no swap is requested. Returns the
/// asset the renderer must newly bind, if any.
pub fn apply_selection(
    registry: &ClipRegistry,
    state: &mut AnimationState,
    target: ClipId,
    bound_asset: u64,
) -> (swap: Option<u64>)
    requires
        registry.wf(),
        state_consistent(*old(state), registry@),
    ensures
        *final(state) == switched_state(*old(state), registry@, target),
        swap == swap_request(*old(state), registry@, target, bound_asset),
        state_consistent(*final(state), registry@),
{
    if target == state.current_clip {
        return None;
    }
    match registry.get(target) {
        None => None,
        Some(clip) => {
            state.current_clip = target;
            state.frame_index = 0;
            state.elapsed_in_frame = 0;
            if clip.asset_id != bound_asset {
                Some(clip.asset_id)
            } else {
                None
            }
        },
    }
}

/// Advances the playing clip by `delta_units`, looking the clip up in the
/// registry. An unregistered current clip is a harmless no-op.
pub fn advance_current(registry: &ClipRegistry, state: &mut AnimationState, delta_units: u64)
    requires
        registry.wf(),
        state_consistent(*old(state), registry@),
        old(state).elapsed_in_frame + delta_units <= u64::MAX,
    ensures
        state_consistent(*final(state), registry@),
        final(state).current_clip == old(state).current_clip,
        final(state).facing_mirrored == old(state).facing_mirrored,
        !registry@.contains_key(old(state).current_clip) ==> *final(state) == *old(state),
        registry@.contains_key(old(state).current_clip) ==> {
            let clip = registry@[old(state).current_clip];
            if clip.frame_duration == 0 {
                *final(state) == *old(state)
            } else {
                &&& final(state).frame_index == advanced_index(
                    old(state).frame_index as int,
                    old(state).elapsed_in_frame as int,
                    delta_units as int,
                    clip.frame_duration as int,
                    clip.frame_count as int,
                )
                &&& final(state).elapsed_in_frame == residual_time(
                    old(state).elapsed_in_frame as int,
                    delta_units as int,
                    clip.frame_duration as int,
                )
            }
        },
{
    match registry.get(state.current_clip) {
        None => (),
        Some(clip) => advance(state, &clip, delta_units),
    }
}

/// What one tick hands back to the caller: the spritesheet index to
/// display (absent when the playing clip is not registered) and the
/// frameset the renderer must newly bind, if any.
#[derive(Clone, Copy, Debug, PartialEq, Eq, Structural)]
pub struct TickOutput {
    pub render_index: Option<usize>,
    pub swap_asset: Option<u64>,
}

/// One full tick of a side-view actor, in the fixed order the policies
/// compose: classify the intent, switch clips on an actual change,
/// advance the clock of the (possibly new) clip, then apply the mirror
/// policy.
pub fn tick_side_view(
    registry: &ClipRegistry,
    state: &mut AnimationState,
    config: &SelectorConfig,
    intent: &ActorIntent,
    keys: &MirrorKeys,
    delta_units: u64,
    bound_asset: u64,
) -> (output: TickOutput)
    requires
        registry.wf(),
        config.vel_epsilon >= 0,
        state_consistent(*old(state), registry@),
        old(state).elapsed_in_frame + delta_units <= u64::MAX,
    ensures
        state_consistent(*final(state), registry@),
        ({
            let target = selected_clip(*config, *intent);
            let switched = switched_state(*old(state), registry@, target);
            &&& output.swap_asset == swap_request(*old(state), registry@, target, bound_asset)
            &&& final(state).current_clip == switched.current_clip
            &&& final(state).facing_mirrored == mirrored_after(
                old(state).facing_mirrored,
                *keys,
            )
            &&& if registry@.contains_key(switched.current_clip) {
                let clip = registry@[switched.current_clip];
                &&& output.render_index == Some(
                    (clip.starting_index + final(state).frame_index) as usize,
                )
                &&& if clip.frame_duration == 0 {
                    final(state).frame_index == switched.frame_index
                        && final(state).elapsed_in_frame == switched.elapsed_in_frame
                } else {
                    &&& final(state).frame_index == advanced_index(
                        switched.frame_index as int,
                        switched.elapsed_in_frame as int,
                        delta_units as int,
                        clip.frame_duration as int,
                        clip.frame_count as int,
                    )
                    &&& final(state).elapsed_in_frame == residual_time(
                        switched.elapsed_in_frame as int,
                        delta_units as int,
                        clip.frame_duration as int,
                    )
                }
            } else {
                &&& output.render_index is None
                &&& final(state).frame_index == switched.frame_index
                &&& final(state).elapsed_in_frame == switched.elapsed_in_frame
            }
        }),
{
    let target = select(config, intent);
    let swap_asset = apply_selection(registry, state, target, bound_asset);
    advance_current(registry, state, delta_units);
    update_mirror(state, keys);
    let index = match registry.get(state.current_clip) {
        None => None,
        Some(clip) => Some(render_index(state, &clip)),
    };
    TickOutput { render_index: index, swap_asset }
}

/// What one top-down tick hands back: the resolved facing in addition to
/// the render output.
#[derive(Clone, Copy, Debug, PartialEq, Eq, Structural)]
pub struct TopDownTick {
    pub facing: Direction,
    pub output: TickOutput,
}

/// One full tick of a top-down actor: resolve the eight-way facing from
/// the held keys, select walk or idle in that facing, switch clips on an
/// actual change, then advance the clock.
pub fn tick_top_down(
    registry: &ClipRegistry,
    state: &mut AnimationState,
    previous_facing: Direction,
    keys: &MoveKeys,
    delta_units: u64,
    bound_asset: u64,
) -> (tick: TopDownTick)
    requires
        registry.wf(),
        state_consistent(*old(state), registry@),
        old(state).elapsed_in_frame + delta_units <= u64::MAX,
    ensures
        state_consistent(*final(state), registry@),
        tick.facing == resolved_direction(previous_facing, *keys),
        ({
            let target = selected_top_down(any_movement(*keys), tick.facing);
            let switched = switched_state(*old(state), registry@, target);
            &&& tick.output.swap_asset == swap_request(
                *old(state),
                registry@,
                target,
                bound_asset,
            )
            &&& final(state).current_clip == switched.current_clip
            &&& final(state).facing_mirrored == old(state).facing_mirrored
            &&& if registry@.contains_key(switched.current_clip) {
                let clip = registry@[switched.current_clip];
                &&& tick.output.render_index == Some(
                    (clip.starting_index + final(state).frame_index) as usize,
                )
                &&& if clip.frame_duration == 0 {
                    final(state).frame_index == switched.frame_index
                        && final(state).elapsed_in_frame == switched.elapsed_in_frame
                } else {
                    &&& final(state).frame_index == advanced_index(
                        switched.frame_index as int,
                        switched.elapsed_in_frame as int,
                        delta_units as int,
                        clip.frame_duration as int,
                        clip.frame_count as int,
                    )
                    &&& final(state).elapsed_in_frame == residual_time(
                        switched.elapsed_in_frame as int,
                        delta_units as int,
                        clip.frame_duration as int,
                    )
                }
            } else {
                &&& tick.output.render_index is None
                &&& final(state).frame_index == switched.frame_index
                &&& final(state).elapsed_in_frame == switched.elapsed_in_frame
            }
        }),
{
    let facing = resolve_direction(previous_facing, keys);
    let target = select_top_down(keys, facing);
    let swap_asset = apply_selection(registry, state, target, bound_asset);
    advance_current(registry, state, delta_units);
    let index = match registry.get(state.current_clip) {
        None => None,
        Some(clip) => Some(render_index(state, &clip)),
    };
    TopDownTick { facing, output: TickOutput { render_index: index, swap_asset } }
}

} // verus!
