use vstd::prelude::*;

verus! {

use crate::clock::AnimationState;

/// The horizontal direction keys of this tick and of the previous one,
/// from which the edge-triggered mirror policy is decided.
#[derive(Clone, Copy, Debug, PartialEq, Eq, Structural)]
pub struct MirrorKeys {
    pub left_held: bool,
    pub right_held: bool,
    pub left_was_held: bool,
    pub right_was_held: bool,
}

/// Move-left went from released to held this tick.
pub open spec fn rising_left(keys: MirrorKeys) -> bool {
    keys.left_held && !keys.left_was_held
}

/// Move-right went from released to held this tick.
pub open spec fn rising_right(keys: MirrorKeys) -> bool {
    keys.right_held && !keys.right_was_held
}

/// Move-left went from held to released this tick.
pub open spec fn falling_left(keys: MirrorKeys) -> bool {
    !keys.left_held && keys.left_was_held
}

/// The edge-triggered mirror policy. A rising move-left edge mirrors the
/// sprite; a rising move-right edge while move-left is not held clears
/// the mirror; releasing move-left while move-right stays held also
/// clears it. Mere holding of keys fires no edge, so the flag cannot
/// flicker while both directions stay pressed.
pub open spec fn mirrored_after(mirrored: bool, keys: MirrorKeys) -> bool {
    if rising_left(keys) {
        true
    } else if rising_right(keys) && !keys.left_held {
        false
    } else if falling_left(keys) && keys.right_held {
        false
    } else {
        mirrored
    }
}

/// Applies the mirror policy to the actor's state; nothing else of the
/// state changes.
pub fn update_mirror(state: &mut AnimationState, keys: &MirrorKeys)
    ensures
        final(state).facing_mirrored == mirrored_after(old(state).facing_mirrored, *keys),
        final(state).current_clip == old(state).current_clip,
        final(state).frame_index == old(state).frame_index,
        final(state).elapsed_in_frame == old(state).elapsed_in_frame,
{
    if keys.left_held && !keys.left_was_held {
        state.facing_mirrored = true;
    } else if keys.right_held && !keys.right_was_held && !keys.left_held {
        state.facing_mirrored = false;
    } else if !keys.left_held && keys.left_was_held && keys.right_held {
        state.facing_mirrored = false;
    }
}

} // verus!
