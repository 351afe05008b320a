use vstd::prelude::*;

verus! {

/// Eight-way compass facing used by direction-parameterized clips.
#[derive(Clone, Copy, Debug, PartialEq, Eq, Structural, Hash)]
pub enum Direction {
    North,
    NorthEast,
    East,
    SouthEast,
    South,
    SouthWest,
    West,
    NorthWest,
}

/// Names one distinct animation. Side-view actors use the plain variants;
/// top-down actors use the direction-parameterized ones.
#[derive(Clone, Copy, Debug, PartialEq, Eq, Structural, Hash)]
pub enum ClipId {
    Idle,
    Run,
    Jump,
    Fall,
    IdleFacing(Direction),
    WalkFacing(Direction),
}

/// Immutable definition of an animation clip.
///
/// `frame_duration` is in integer time units; zero means a single static
/// pose that never advances. `starting_index` is the offset of the clip's
/// first frame inside a shared spritesheet; a clip that owns its whole
/// sheet uses zero. `asset_id` is an opaque handle naming the frameset in
/// the caller's rendering system.
#[derive(Clone, Copy, Debug, PartialEq, Eq, Structural, Hash)]
pub struct Clip {
    pub frame_count: usize,
    pub frame_duration: u64,
    pub starting_index: usize,
    pub asset_id: u64,
}

impl Clip {
    /// A clip is well formed when it has at least one frame and the frames
    /// it covers fit inside an addressable spritesheet.
    pub open spec fn wf(self) -> bool {
        &&& self.frame_count >= 1
        &&& self.starting_index + self.frame_count <= usize::MAX
    }
}

} // verus!
