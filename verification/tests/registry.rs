use sprite_anim::clip::{Clip, ClipId, Direction};
use sprite_anim::registry::{player_clip_set, ClipError, ClipRegistry};

fn clip(frame_count: usize, frame_duration: u64, asset_id: u64) -> Clip {
    Clip { frame_count, frame_duration, starting_index: 0, asset_id }
}

#[test]
fn empty_registry_finds_nothing() {
    let registry = ClipRegistry::new();
    assert_eq!(registry.get(ClipId::Idle), None);
}

#[test]
fn added_clip_is_found() {
    let mut registry = ClipRegistry::new();
    assert_eq!(registry.add(ClipId::Run, clip(5, 120, 3)), Ok(()));
    assert_eq!(registry.get(ClipId::Run), Some(clip(5, 120, 3)));
    assert_eq!(registry.get(ClipId::Jump), None);
}

#[test]
fn later_add_replaces_earlier() {
    let mut registry = ClipRegistry::new();
    assert_eq!(registry.add(ClipId::Run, clip(5, 120, 3)), Ok(()));
    assert_eq!(registry.add(ClipId::Run, clip(8, 90, 4)), Ok(()));
    assert_eq!(registry.get(ClipId::Run), Some(clip(8, 90, 4)));
}

#[test]
fn clip_without_frames_is_rejected() {
    let mut registry = ClipRegistry::new();
    assert_eq!(registry.add(ClipId::Run, clip(0, 120, 3)), Err(ClipError::NoFrames));
    assert_eq!(registry.get(ClipId::Run), None);
}

#[test]
fn stock_player_set_holds_all_sixteen_clips() {
    let registry = player_clip_set();
    for direction in [
        Direction::North,
        Direction::NorthEast,
        Direction::East,
        Direction::SouthEast,
        Direction::South,
        Direction::SouthWest,
        Direction::West,
        Direction::NorthWest,
    ] {
        assert!(registry.get(ClipId::IdleFacing(direction)).is_some());
        assert!(registry.get(ClipId::WalkFacing(direction)).is_some());
    }
    assert_eq!(registry.get(ClipId::Run), None);
}

#[test]
fn stock_player_set_keeps_the_odd_clips_out() {
    // Idle-south runs slower than the rest; idle-southwest is shorter.
    let registry = player_clip_set();
    let idle_south = registry.get(ClipId::IdleFacing(Direction::South)).unwrap();
    assert_eq!(idle_south.frame_count, 6);
    assert_eq!(idle_south.frame_duration, 130);
    let idle_southwest = registry.get(ClipId::IdleFacing(Direction::SouthWest)).unwrap();
    assert_eq!(idle_southwest.frame_count, 4);
    assert_eq!(idle_southwest.frame_duration, 100);
    let walk_north = registry.get(ClipId::WalkFacing(Direction::North)).unwrap();
    assert_eq!(walk_north.asset_id, 12);
}
