use vstd::prelude::*;

verus! {

use crate::clip::ClipId;

/// Tunables of the side-view selector. `vel_epsilon` is the half-width of
/// the symmetric dead zone around zero vertical velocity, in the caller's
/// fixed-point velocity scale; physics engines report a small non-zero
/// velocity at rest, and classifying that noise as airborne would make
/// the idle and run clips flicker. `track_grounded` says whether the
/// physics system supplies a grounded flag; when it does not, the
/// velocity test alone decides.
#[derive(Clone, Copy, Debug, PartialEq, Eq, Structural)]
pub struct SelectorConfig {
    pub vel_epsilon: i64,
    pub track_grounded: bool,
}

/// Everything the selector reads about an actor for one tick.
#[derive(Clone, Copy, Debug, PartialEq, Eq, Structural)]
pub struct ActorIntent {
    pub horizontal_pressed: bool,
    pub vertical_pressed: bool,
    pub vertical_velocity: i64,
    pub grounded: bool,
    pub holding_item: bool,
}

/// The velocity lies in the symmetric dead zone and counts as rest.
pub open spec fn in_dead_zone(velocity: int, epsilon: int) -> bool {
    -epsilon <= velocity <= epsilon
}

/// The side-view classification policy, re-run from scratch every tick:
/// running needs a horizontal press, no vertical press, a vertical
/// velocity at rest and (when tracked) ground contact; otherwise a clear
/// upward or downward velocity while (when tracked) airborne selects the
/// jump or fall pose; everything else idles.
pub open spec fn selected_clip(config: SelectorConfig, intent: ActorIntent) -> ClipId {
    if intent.horizontal_pressed && !intent.vertical_pressed && in_dead_zone(
        intent.vertical_velocity as int,
        config.vel_epsilon as int,
    ) && (config.track_grounded ==> intent.grounded) {
        ClipId::Run
    } else if intent.vertical_velocity > config.vel_epsilon && (config.track_grounded
        ==> !intent.grounded) {
        ClipId::Jump
    } else if intent.vertical_velocity < -(config.vel_epsilon as int) && (config.track_grounded
        ==> !intent.grounded) {
        ClipId::Fall
    } else {
        ClipId::Idle
    }
}

/// Picks the clip a side-view actor should play this tick.
pub fn select(config: &SelectorConfig, intent: &ActorIntent) -> (id: ClipId)
    requires
        config.vel_epsilon >= 0,
    ensures
        id == selected_clip(*config, *intent),
{
    let at_rest = -config.vel_epsilon <= intent.vertical_velocity
        && intent.vertical_velocity <= config.vel_epsilon;
    if intent.horizontal_pressed && !intent.vertical_pressed && at_rest && (!config.track_grounded
        || intent.grounded) {
        ClipId::Run
    } else if intent.vertical_velocity > config.vel_epsilon && (!config.track_grounded
        || !intent.grounded) {
        ClipId::Jump
    } else if intent.vertical_velocity < -config.vel_epsilon && (!config.track_grounded
        || !intent.grounded) {
        ClipId::Fall
    } else {
        ClipId::Idle
    }
}

} // verus!
