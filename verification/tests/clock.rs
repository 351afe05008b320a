use sprite_anim::clip::{Clip, ClipId};
use sprite_anim::clock::{advance, render_index, AnimationState};

#[test]
fn new_state_starts_clean() {
    let state = AnimationState::new(ClipId::Idle);
    assert_eq!(state.current_clip, ClipId::Idle);
    assert_eq!(state.frame_index, 0);
    assert_eq!(state.elapsed_in_frame, 0);
    assert!(!state.facing_mirrored);
}

#[test]
fn run_clip_advances_two_frames() {
    // frame_duration 120 ms, delta 300 ms: two whole frames pass and
    // 60 ms is carried.
    let clip = Clip { frame_count: 5, frame_duration: 120, starting_index: 0, asset_id: 0 };
    let mut state = AnimationState::new(ClipId::Run);
    advance(&mut state, &clip, 300);
    assert_eq!(state.frame_index, 2);
    assert_eq!(state.elapsed_in_frame, 60);
}

#[test]
fn shared_sheet_clip_wraps_and_offsets() {
    // frame_duration 500 ms, carried 400 ms, delta 300 ms: one frame
    // passes, the local index wraps from 3 to 0, and the render index is
    // the sheet offset.
    let clip = Clip { frame_count: 4, frame_duration: 500, starting_index: 4, asset_id: 0 };
    let mut state = AnimationState::new(ClipId::Idle);
    state.frame_index = 3;
    state.elapsed_in_frame = 400;
    advance(&mut state, &clip, 300);
    assert_eq!(state.frame_index, 0);
    assert_eq!(state.elapsed_in_frame, 200);
    assert_eq!(render_index(&state, &clip), 4);
}

#[test]
fn static_pose_never_advances() {
    let clip = Clip { frame_count: 3, frame_duration: 0, starting_index: 0, asset_id: 0 };
    let mut state = AnimationState::new(ClipId::Jump);
    state.frame_index = 1;
    state.elapsed_in_frame = 7;
    advance(&mut state, &clip, 0);
    advance(&mut state, &clip, 1);
    advance(&mut state, &clip, 1_000_000_000);
    assert_eq!(state.frame_index, 1);
    assert_eq!(state.elapsed_in_frame, 7);
}

#[test]
fn long_stall_skips_several_frames() {
    let clip = Clip { frame_count: 6, frame_duration: 100, starting_index: 0, asset_id: 0 };
    let mut state = AnimationState::new(ClipId::Run);
    advance(&mut state, &clip, 1450);
    // 14 frames pass: (0 + 14) % 6 == 2, with 50 ms carried.
    assert_eq!(state.frame_index, 2);
    assert_eq!(state.elapsed_in_frame, 50);
}

#[test]
fn full_cycles_return_to_start() {
    // Cycle length 5 * 120 == 600; deltas summing to two cycles bring
    // the clock back exactly where it started.
    let clip = Clip { frame_count: 5, frame_duration: 120, starting_index: 0, asset_id: 0 };
    let mut state = AnimationState::new(ClipId::Run);
    state.frame_index = 2;
    for delta in [500u64, 300, 250, 150] {
        advance(&mut state, &clip, delta);
    }
    assert_eq!(state.frame_index, 2);
    assert_eq!(state.elapsed_in_frame, 0);
}

#[test]
fn residual_always_below_frame_duration() {
    let clip = Clip { frame_count: 7, frame_duration: 130, starting_index: 0, asset_id: 0 };
    let mut state = AnimationState::new(ClipId::Run);
    for delta in [0u64, 1, 129, 130, 131, 999, 12345, 3] {
        advance(&mut state, &clip, delta);
        assert!(state.elapsed_in_frame < clip.frame_duration);
        assert!(state.frame_index < clip.frame_count);
    }
}
