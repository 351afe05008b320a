use vstd::prelude::*;

verus! {

use crate::clip::{ClipId, Direction};

/// Which movement keys are held this tick.
#[derive(Clone, Copy, Debug, PartialEq, Eq, Structural)]
pub struct MoveKeys {
    pub left: bool,
    pub right: bool,
    pub up: bool,
    pub down: bool,
}

/// Any movement key is held.
pub open spec fn any_movement(keys: MoveKeys) -> bool {
    keys.left || keys.right || keys.up || keys.down
}

/// Eight-way facing resolution: opposite keys held together cancel and
/// contribute nothing on that axis, diagonals take precedence over single
/// axes, and when neither axis contributes the previous facing is kept.
pub open spec fn resolved_direction(previous: Direction, keys: MoveKeys) -> Direction {
    let west = keys.left && !keys.right;
    let east = keys.right && !keys.left;
    let north = keys.up && !keys.down;
    let south = keys.down && !keys.up;
    if north && west {
        Direction::NorthWest
    } else if north && east {
        Direction::NorthEast
    } else if south && west {
        Direction::SouthWest
    } else if south && east {
        Direction::SouthEast
    } else if north {
        Direction::North
    } else if south {
        Direction::South
    } else if west {
        Direction::West
    } else if east {
        Direction::East
    } else {
        previous
    }
}

/// Resolves the facing an actor should have after this tick's keys.
pub fn resolve_direction(previous: Direction, keys: &MoveKeys) -> (direction: Direction)
    ensures
        direction == resolved_direction(previous, *keys),
{
    let west = keys.left && !keys.right;
    let east = keys.right && !keys.left;
    let north = keys.up && !keys.down;
    let south = keys.down && !keys.up;
    if north && west {
        Direction::NorthWest
    } else if north && east {
        Direction::NorthEast
    } else if south && west {
        Direction::SouthWest
    } else if south && east {
        Direction::SouthEast
    } else if north {
        Direction::North
    } else if south {
        Direction::South
    } else if west {
        Direction::West
    } else if east {
        Direction::East
    } else {
        previous
    }
}

/// The top-down selection policy: walk in the current facing while any
/// movement key is held, otherwise idle in that facing.
pub open spec fn selected_top_down(moving: bool, facing: Direction) -> ClipId {
    if moving {
        ClipId::WalkFacing(facing)
    } else {
        ClipId::IdleFacing(facing)
    }
}

/// Picks the clip a top-down actor should play this tick.
pub fn select_top_down(keys: &MoveKeys, facing: Direction) -> (id: ClipId)
    ensures
        id == selected_top_down(any_movement(*keys), facing),
{
    if keys.left || keys.right || keys.up || keys.down {
        ClipId::WalkFacing(facing)
    } else {
        ClipId::IdleFacing(facing)
    }
}

} // verus!
