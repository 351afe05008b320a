use sprite_anim::clip::{Clip, ClipId, Direction};
use sprite_anim::clock::AnimationState;
use sprite_anim::driver::{advance_current, apply_selection, tick_side_view, tick_top_down};
use sprite_anim::facing::MoveKeys;
use sprite_anim::mirror::MirrorKeys;
use sprite_anim::registry::{player_clip_set, ClipRegistry};
use sprite_anim::selector::{ActorIntent, SelectorConfig};

fn side_view_registry() -> ClipRegistry {
    let mut registry = ClipRegistry::new();
    let entries = [
        (ClipId::Idle, 4, 500, 10),
        (ClipId::Run, 5, 120, 11),
        (ClipId::Jump, 1, 0, 12),
        (ClipId::Fall, 1, 0, 13),
    ];
    for (id, frame_count, frame_duration, asset_id) in entries {
        let clip = Clip { frame_count, frame_duration, starting_index: 0, asset_id };
        assert_eq!(registry.add(id, clip), Ok(()));
    }
    registry
}

fn calm_keys() -> MirrorKeys {
    MirrorKeys { left_held: false, right_held: false, left_was_held: false, right_was_held: false }
}

#[test]
fn switching_clips_resets_phase() {
    let registry = side_view_registry();
    let mut state = AnimationState::new(ClipId::Idle);
    state.frame_index = 3;
    state.elapsed_in_frame = 450;
    let swap = apply_selection(&registry, &mut state, ClipId::Run, 10);
    assert_eq!(state.current_clip, ClipId::Run);
    assert_eq!(state.frame_index, 0);
    assert_eq!(state.elapsed_in_frame, 0);
    assert_eq!(swap, Some(11));
}

#[test]
fn switch_then_advance_counts_from_zero() {
    // After a clip change the first advance lands on the frames the
    // delta covers from zero, never on an index carried over.
    let registry = side_view_registry();
    let mut state = AnimationState::new(ClipId::Idle);
    state.frame_index = 3;
    state.elapsed_in_frame = 450;
    let _ = apply_selection(&registry, &mut state, ClipId::Run, 11);
    advance_current(&registry, &mut state, 250);
    assert_eq!(state.frame_index, 2);
    assert_eq!(state.elapsed_in_frame, 10);
}

#[test]
fn same_clip_keeps_phase() {
    let registry = side_view_registry();
    let mut state = AnimationState::new(ClipId::Idle);
    state.frame_index = 2;
    state.elapsed_in_frame = 300;
    let swap = apply_selection(&registry, &mut state, ClipId::Idle, 99);
    assert_eq!(swap, None);
    assert_eq!(state.frame_index, 2);
    assert_eq!(state.elapsed_in_frame, 300);
}

#[test]
fn unregistered_target_is_a_no_op() {
    let registry = side_view_registry();
    let mut state = AnimationState::new(ClipId::Idle);
    state.frame_index = 1;
    let swap = apply_selection(&registry, &mut state, ClipId::WalkFacing(Direction::North), 10);
    assert_eq!(swap, None);
    assert_eq!(state.current_clip, ClipId::Idle);
    assert_eq!(state.frame_index, 1);
}

#[test]
fn swap_skipped_when_asset_already_bound() {
    let registry = side_view_registry();
    let mut state = AnimationState::new(ClipId::Idle);
    let swap = apply_selection(&registry, &mut state, ClipId::Run, 11);
    assert_eq!(swap, None);
    assert_eq!(state.current_clip, ClipId::Run);
}

#[test]
fn unregistered_current_clip_never_advances() {
    let registry = side_view_registry();
    let mut state = AnimationState::new(ClipId::IdleFacing(Direction::South));
    state.frame_index = 2;
    state.elapsed_in_frame = 40;
    advance_current(&registry, &mut state, 10_000);
    assert_eq!(state.frame_index, 2);
    assert_eq!(state.elapsed_in_frame, 40);
}

#[test]
fn side_view_tick_switches_and_animates() {
    let registry = side_view_registry();
    let config = SelectorConfig { vel_epsilon: 20, track_grounded: true };
    let mut state = AnimationState::new(ClipId::Idle);
    let intent = ActorIntent {
        horizontal_pressed: true,
        vertical_pressed: false,
        vertical_velocity: 5,
        grounded: true,
        holding_item: false,
    };
    let output = tick_side_view(&registry, &mut state, &config, &intent, &calm_keys(), 130, 10);
    assert_eq!(state.current_clip, ClipId::Run);
    assert_eq!(output.swap_asset, Some(11));
    // 130 ms into the 120 ms run clip: one frame passed, 10 ms carried.
    assert_eq!(state.frame_index, 1);
    assert_eq!(state.elapsed_in_frame, 10);
    assert_eq!(output.render_index, Some(1));
}

#[test]
fn side_view_tick_applies_mirror_policy() {
    let registry = side_view_registry();
    let config = SelectorConfig { vel_epsilon: 20, track_grounded: true };
    let mut state = AnimationState::new(ClipId::Idle);
    let keys = MirrorKeys {
        left_held: true,
        right_held: false,
        left_was_held: false,
        right_was_held: false,
    };
    tick_side_view(
        &registry,
        &mut state,
        &config,
        &ActorIntent {
            horizontal_pressed: true,
            vertical_pressed: false,
            vertical_velocity: 0,
            grounded: true,
            holding_item: false,
        },
        &keys,
        0,
        11,
    );
    assert!(state.facing_mirrored);
}

#[test]
fn top_down_tick_walks_in_resolved_facing() {
    let registry = player_clip_set();
    let mut state = AnimationState::new(ClipId::IdleFacing(Direction::South));
    let keys = MoveKeys { left: false, right: false, up: false, down: true };
    let tick = tick_top_down(&registry, &mut state, Direction::South, &keys, 100, 0);
    assert_eq!(tick.facing, Direction::South);
    assert_eq!(state.current_clip, ClipId::WalkFacing(Direction::South));
    // The walk-south frameset (asset 8) replaces the bound asset 0.
    assert_eq!(tick.output.swap_asset, Some(8));
    // One 100 ms frame of the walk clip passed after the reset.
    assert_eq!(state.frame_index, 1);
    assert_eq!(tick.output.render_index, Some(1));
}

#[test]
fn top_down_tick_idles_when_keys_released() {
    let registry = player_clip_set();
    let mut state = AnimationState::new(ClipId::WalkFacing(Direction::West));
    let still = MoveKeys { left: false, right: false, up: false, down: false };
    let tick = tick_top_down(&registry, &mut state, Direction::West, &still, 50, 10);
    assert_eq!(tick.facing, Direction::West);
    assert_eq!(state.current_clip, ClipId::IdleFacing(Direction::West));
    // The idle-west frameset is asset 2.
    assert_eq!(tick.output.swap_asset, Some(2));
    assert_eq!(state.frame_index, 0);
    assert_eq!(state.elapsed_in_frame, 50);
}
