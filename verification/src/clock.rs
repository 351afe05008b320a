use vstd::prelude::*;

verus! {

use vstd::arithmetic::div_mod::{
    lemma_add_mod_noop_right, lemma_fundamental_div_mod_converse_mod, lemma_mod_bound,
    lemma_small_mod,
};

use crate::clip::{Clip, ClipId};

/// Per-actor mutable animation bookkeeping: which clip is playing, which
/// local frame of it is displayed, how much time has accumulated inside
/// that frame, and whether the sprite is horizontally mirrored.
#[derive(Clone, Copy, Debug, PartialEq, Eq, Structural)]
pub struct AnimationState {
    pub current_clip: ClipId,
    pub frame_index: usize,
    pub elapsed_in_frame: u64,
    pub facing_mirrored: bool,
}

/// How many whole frames a clip passes once `delta` more time units are
/// added to the time already accumulated in the current frame.
pub open spec fn frames_elapsed(elapsed: int, delta: int, duration: int) -> int {
    (elapsed + delta) / duration
}

/// The local frame index after the elapsed frames are consumed, wrapped
/// at the clip boundary.
pub open spec fn advanced_index(
    index: int,
    elapsed: int,
    delta: int,
    duration: int,
    count: int,
) -> int {
    (index + frames_elapsed(elapsed, delta, duration)) % count
}

/// The time left over inside the newly displayed frame: whole frames are
/// consumed and the remainder is carried, so no time is lost or invented.
pub open spec fn residual_time(elapsed: int, delta: int, duration: int) -> int {
    (elapsed + delta) % duration
}

impl AnimationState {
    /// The frame index addresses a real frame of `clip`, and the carried
    /// time never covers a whole frame of it.
    pub open spec fn in_frame_bounds(self, clip: Clip) -> bool {
        &&& self.frame_index < clip.frame_count
        &&& clip.frame_duration > 0 ==> self.elapsed_in_frame < clip.frame_duration
    }

    /// A fresh actor: first frame of `initial`, no accumulated time,
    /// not mirrored.
    pub fn new(initial: ClipId) -> (state: AnimationState)
        ensures
            state == (AnimationState {
                current_clip: initial,
                frame_index: 0,
                elapsed_in_frame: 0,
                facing_mirrored: false,
            }),
    {
        AnimationState { current_clip: initial, frame_index: 0, elapsed_in_frame: 0, facing_mirrored: false }
    }
}

/// Advances the displayed frame of `clip` by `delta_units` of time.
///
/// A zero frame duration marks a static pose: the call changes nothing.
/// Otherwise the accumulated time is converted into whole frames (several
/// at once after a long stall), the index wraps at the clip boundary, and
/// the remainder below one frame is carried forward. The delta is
/// unsigned, so a degenerate negative time measurement cannot arrive
/// here: glue reading a signed clock clamps below zero first.
pub fn advance(state: &mut AnimationState, clip: &Clip, delta_units: u64)
    requires
        clip.wf(),
        old(state).frame_index < clip.frame_count,
        old(state).elapsed_in_frame + delta_units <= u64::MAX,
    ensures
        clip.frame_duration == 0 ==> *final(state) == *old(state),
        clip.frame_duration > 0 ==> final(state).frame_index == advanced_index(
            old(state).frame_index as int,
            old(state).elapsed_in_frame as int,
            delta_units as int,
            clip.frame_duration as int,
            clip.frame_count as int,
        ),
        clip.frame_duration > 0 ==> final(state).elapsed_in_frame == residual_time(
            old(state).elapsed_in_frame as int,
            delta_units as int,
            clip.frame_duration as int,
        ),
        final(state).current_clip == old(state).current_clip,
        final(state).facing_mirrored == old(state).facing_mirrored,
        final(state).in_frame_bounds(*clip),
{
    if clip.frame_duration == 0 {
        return;
    }
    let total: u64 = state.elapsed_in_frame + delta_units;
    let frames: u64 = total / clip.frame_duration;
    let residual: u64 = total % clip.frame_duration;
    let count64: u64 = clip.frame_count as u64;
    let wrapped: usize = (frames % count64) as usize;
    proof {
        lemma_mod_bound(frames as int, count64 as int);
    }
    let index =
        if wrapped < clip.frame_count - state.frame_index {
            state.frame_index + wrapped
        } else {
            wrapped - (clip.frame_count - state.frame_index)
        };
    proof {
        let i = state.frame_index as int;
        let w = wrapped as int;
        let f = frames as int;
        let c = clip.frame_count as int;
        lemma_add_mod_noop_right(i, f, c);
        if i + w < c {
            lemma_small_mod((i + w) as nat, c as nat);
        } else {
            lemma_fundamental_div_mod_converse_mod(i + w, c, 1, i + w - c);
        }
        assert(index as int == advanced_index(
            i,
            state.elapsed_in_frame as int,
            delta_units as int,
            clip.frame_duration as int,
            c,
        ));
    }
    state.frame_index = index;
    state.elapsed_in_frame = residual;
}

/// The index to hand to the renderer: the clip's offset inside its shared
/// spritesheet plus the local frame index.
pub fn render_index(state: &AnimationState, clip: &Clip) -> (index: usize)
    requires
        clip.wf(),
        state.frame_index < clip.frame_count,
    ensures
        index == clip.starting_index + state.frame_index,
{
    clip.starting_index + state.frame_index
}

} // verus!
