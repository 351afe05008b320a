use vstd::prelude::*;

verus! {

use crate::clip::{Clip, ClipId, Direction};

/// Faults found while building the clip registry. A clip with no frames
/// is a configuration error and is rejected when the registry is built,
/// so the per-tick code never meets one.
#[derive(Clone, Copy, Debug, PartialEq, Eq, Structural)]
pub enum ClipError {
    NoFrames,
}

/// The mathematical contents of an association list of clips: later
/// entries shadow earlier ones with the same id.
pub open spec fn map_of(entries: Seq<(ClipId, Clip)>) -> Map<ClipId, Clip>
    decreases entries.len(),
{
    if entries.len() == 0 {
        Map::empty()
    } else {
        map_of(entries.drop_last()).insert(entries.last().0, entries.last().1)
    }
}

/// No two entries name the same clip.
pub open spec fn unique_ids(entries: Seq<(ClipId, Clip)>) -> bool {
    forall|i: int, j: int|
        0 <= i < j < entries.len() ==> (#[trigger] entries[i]).0 != (#[trigger] entries[j]).0
}

/// Read-only lookup table from clip id to clip definition, built once at
/// startup. Viewed as a `Map<ClipId, Clip>` whose values are all well
/// formed.
pub struct ClipRegistry {
    entries: Vec<(ClipId, Clip)>,
}

proof fn lemma_map_of_contains_iff(entries: Seq<(ClipId, Clip)>, id: ClipId)
    ensures
        map_of(entries).contains_key(id) <==> exists|i: int|
            0 <= i < entries.len() && (#[trigger] entries[i]).0 == id,
    decreases entries.len(),
{
    if entries.len() > 0 {
        lemma_map_of_contains_iff(entries.drop_last(), id);
        if entries.last().0 == id {
            assert(entries[entries.len() - 1].0 == id);
        } else if map_of(entries).contains_key(id) {
            let i = choose|i: int|
                0 <= i < entries.drop_last().len() && (#[trigger] entries.drop_last()[i]).0 == id;
            assert(entries[i].0 == id);
        } else {
            assert forall|i: int| 0 <= i < entries.len() implies (#[trigger] entries[i]).0 != id by {
                if i < entries.len() - 1 {
                    assert(entries.drop_last()[i].0 != id);
                }
            }
        }
    }
}

proof fn lemma_map_of_found(entries: Seq<(ClipId, Clip)>, i: int)
    requires
        unique_ids(entries),
        0 <= i < entries.len(),
    ensures
        map_of(entries).contains_key(entries[i].0),
        map_of(entries)[entries[i].0] == entries[i].1,
    decreases entries.len(),
{
    if i < entries.len() - 1 {
        lemma_map_of_found(entries.drop_last(), i);
        assert(entries.drop_last()[i] == entries[i]);
        assert(entries.last().0 != entries[i].0);
    }
}

proof fn lemma_map_of_update(entries: Seq<(ClipId, Clip)>, i: int, clip: Clip)
    requires
        unique_ids(entries),
        0 <= i < entries.len(),
    ensures
        map_of(entries.update(i, (entries[i].0, clip))) == map_of(entries).insert(
            entries[i].0,
            clip,
        ),
    decreases entries.len(),
{
    let updated = entries.update(i, (entries[i].0, clip));
    if i == entries.len() - 1 {
        assert(updated.drop_last() =~= entries.drop_last());
        assert(map_of(entries).insert(entries[i].0, clip) =~= map_of(
            updated.drop_last(),
        ).insert(updated.last().0, updated.last().1));
    } else {
        lemma_map_of_update(entries.drop_last(), i, clip);
        assert(updated.drop_last() =~= entries.drop_last().update(i, (entries[i].0, clip)));
        assert(entries.drop_last()[i] == entries[i]);
        assert(entries.last().0 != entries[i].0);
        assert(map_of(updated) =~= map_of(entries).insert(entries[i].0, clip));
    }
}

impl ClipRegistry {
    pub closed spec fn view(self) -> Map<ClipId, Clip> {
        map_of(self.entries@)
    }

    /// Ids are unique and every registered clip is well formed.
    pub closed spec fn wf(self) -> bool {
        &&& unique_ids(self.entries@)
        &&& forall|i: int| 0 <= i < self.entries@.len() ==> (#[trigger] self.entries@[i]).1.wf()
    }

    /// An empty registry.
    pub fn new() -> (registry: ClipRegistry)
        ensures
            registry.wf(),
            registry@ == Map::<ClipId, Clip>::empty(),
    {
        ClipRegistry { entries: Vec::new() }
    }

    /// Registers `clip` under `id`, replacing any earlier definition.
    /// A clip with no frames is a configuration fault and is rejected,
    /// leaving the registry unchanged.
    #[verifier::loop_isolation(false)]
    pub fn add(&mut self, id: ClipId, clip: Clip) -> (result: Result<(), ClipError>)
        requires
            old(self).wf(),
            clip.starting_index + clip.frame_count <= usize::MAX,
        ensures
            final(self).wf(),
            clip.frame_count >= 1 ==> result is Ok && final(self)@ == old(self)@.insert(id, clip),
            clip.frame_count == 0 ==> result is Err && *final(self) == *old(self),
    {
        if clip.frame_count == 0 {
            return Err(ClipError::NoFrames);
        }
        let ghost original = self.entries@;
        let mut i: usize = 0;
        while i < self.entries.len()
            invariant
                self.entries@ == original,
                i <= original.len(),
                forall|j: int| 0 <= j < i ==> (#[trigger] original[j]).0 != id,
            decreases original.len() - i,
        {
            if self.entries[i].0 == id {
                proof {
                    lemma_map_of_update(original, i as int, clip);
                }
                self.entries[i] = (id, clip);
                proof {
                    assert forall|j: int| 0 <= j < self.entries@.len() implies (
                    #[trigger] self.entries@[j]).0 == original[j].0 by {}
                    assert(unique_ids(self.entries@));
                }
                return Ok(());
            }
            i += 1;
        }
        proof {
            lemma_map_of_contains_iff(original, id);
            assert(self.entries@.push((id, clip)).drop_last() =~= original);
            assert(map_of(self.entries@.push((id, clip))) == map_of(original).insert(id, clip));
        }
        self.entries.push((id, clip));
        Ok(())
    }

    /// Looks `id` up. `None` means the id was never registered; the
    /// caller is expected to treat that as a harmless no-op for the tick.
    #[verifier::loop_isolation(false)]
    pub fn get(&self, id: ClipId) -> (result: Option<Clip>)
        requires
            self.wf(),
        ensures
            match result {
                Some(clip) => self@.contains_key(id) && clip == self@[id] && clip.wf(),
                None => !self@.contains_key(id),
            },
    {
        let mut i: usize = 0;
        while i < self.entries.len()
            invariant
                self.wf(),
                i <= self.entries@.len(),
                forall|j: int| 0 <= j < i ==> (#[trigger] self.entries@[j]).0 != id,
            decreases self.entries@.len() - i,
        {
            if self.entries[i].0 == id {
                proof {
                    lemma_map_of_found(self.entries@, i as int);
                }
                return Some(self.entries[i].1);
            }
            i += 1;
        }
        proof {
            lemma_map_of_contains_iff(self.entries@, id);
        }
        None
    }
}

/// The stock set of player clips: an idle and a walk clip for each of the
/// eight facings. Durations are in milliseconds; the asset ids 0 through
/// 15 name the sixteen framesets in the caller's asset table, in this
/// same order.
pub open spec fn player_clip_map() -> Map<ClipId, Clip> {
    Map::empty()
        .insert(
            ClipId::IdleFacing(Direction::South),
            Clip { frame_count: 6, frame_duration: 130, starting_index: 0, asset_id: 0 },
        )
        .insert(
            ClipId::IdleFacing(Direction::SouthWest),
            Clip { frame_count: 4, frame_duration: 100, starting_index: 0, asset_id: 1 },
        )
        .insert(
            ClipId::IdleFacing(Direction::West),
            Clip { frame_count: 6, frame_duration: 100, starting_index: 0, asset_id: 2 },
        )
        .insert(
            ClipId::IdleFacing(Direction::NorthWest),
            Clip { frame_count: 6, frame_duration: 100, starting_index: 0, asset_id: 3 },
        )
        .insert(
            ClipId::IdleFacing(Direction::North),
            Clip { frame_count: 6, frame_duration: 100, starting_index: 0, asset_id: 4 },
        )
        .insert(
            ClipId::IdleFacing(Direction::NorthEast),
            Clip { frame_count: 6, frame_duration: 100, starting_index: 0, asset_id: 5 },
        )
        .insert(
            ClipId::IdleFacing(Direction::East),
            Clip { frame_count: 6, frame_duration: 100, starting_index: 0, asset_id: 6 },
        )
        .insert(
            ClipId::IdleFacing(Direction::SouthEast),
            Clip { frame_count: 6, frame_duration: 100, starting_index: 0, asset_id: 7 },
        )
        .insert(
            ClipId::WalkFacing(Direction::South),
            Clip { frame_count: 6, frame_duration: 100, starting_index: 0, asset_id: 8 },
        )
        .insert(
            ClipId::WalkFacing(Direction::SouthWest),
            Clip { frame_count: 6, frame_duration: 100, starting_index: 0, asset_id: 9 },
        )
        .insert(
            ClipId::WalkFacing(Direction::West),
            Clip { frame_count: 6, frame_duration: 100, starting_index: 0, asset_id: 10 },
        )
        .insert(
            ClipId::WalkFacing(Direction::NorthWest),
            Clip { frame_count: 6, frame_duration: 100, starting_index: 0, asset_id: 11 },
        )
        .insert(
            ClipId::WalkFacing(Direction::North),
            Clip { frame_count: 6, frame_duration: 100, starting_index: 0, asset_id: 12 },
        )
        .insert(
            ClipId::WalkFacing(Direction::NorthEast),
            Clip { frame_count: 6, frame_duration: 100, starting_index: 0, asset_id: 13 },
        )
        .insert(
            ClipId::WalkFacing(Direction::East),
            Clip { frame_count: 6, frame_duration: 100, starting_index: 0, asset_id: 14 },
        )
        .insert(
            ClipId::WalkFacing(Direction::SouthEast),
            Clip { frame_count: 6, frame_duration: 100, starting_index: 0, asset_id: 15 },
        )
}

/// Builds the stock player registry: every clip of `player_clip_map`,
/// nothing else.
pub fn player_clip_set() -> (registry: ClipRegistry)
    ensures
        registry.wf(),
        registry@ == player_clip_map(),
{
    let mut registry = ClipRegistry::new();
    let _ = registry.add(
        ClipId::IdleFacing(Direction::South),
        Clip { frame_count: 6, frame_duration: 130, starting_index: 0, asset_id: 0 },
    );
    let _ = registry.add(
        ClipId::IdleFacing(Direction::SouthWest),
        Clip { frame_count: 4, frame_duration: 100, starting_index: 0, asset_id: 1 },
    );
    let _ = registry.add(
        ClipId::IdleFacing(Direction::West),
        Clip { frame_count: 6, frame_duration: 100, starting_index: 0, asset_id: 2 },
    );
    let _ = registry.add(
        ClipId::IdleFacing(Direction::NorthWest),
        Clip { frame_count: 6, frame_duration: 100, starting_index: 0, asset_id: 3 },
    );
    let _ = registry.add(
        ClipId::IdleFacing(Direction::North),
        Clip { frame_count: 6, frame_duration: 100, starting_index: 0, asset_id: 4 },
    );
    let _ = registry.add(
        ClipId::IdleFacing(Direction::NorthEast),
        Clip { frame_count: 6, frame_duration: 100, starting_index: 0, asset_id: 5 },
    );
    let _ = registry.add(
        ClipId::IdleFacing(Direction::East),
        Clip { frame_count: 6, frame_duration: 100, starting_index: 0, asset_id: 6 },
    );
    let _ = registry.add(
        ClipId::IdleFacing(Direction::SouthEast),
        Clip { frame_count: 6, frame_duration: 100, starting_index: 0, asset_id: 7 },
    );
    let _ = registry.add(
        ClipId::WalkFacing(Direction::South),
        Clip { frame_count: 6, frame_duration: 100, starting_index: 0, asset_id: 8 },
    );
    let _ = registry.add(
        ClipId::WalkFacing(Direction::SouthWest),
        Clip { frame_count: 6, frame_duration: 100, starting_index: 0, asset_id: 9 },
    );
    let _ = registry.add(
        ClipId::WalkFacing(Direction::West),
        Clip { frame_count: 6, frame_duration: 100, starting_index: 0, asset_id: 10 },
    );
    let _ = registry.add(
        ClipId::WalkFacing(Direction::NorthWest),
        Clip { frame_count: 6, frame_duration: 100, starting_index: 0, asset_id: 11 },
    );
    let _ = registry.add(
        ClipId::WalkFacing(Direction::North),
        Clip { frame_count: 6, frame_duration: 100, starting_index: 0, asset_id: 12 },
    );
    let _ = registry.add(
        ClipId::WalkFacing(Direction::NorthEast),
        Clip { frame_count: 6, frame_duration: 100, starting_index: 0, asset_id: 13 },
    );
    let _ = registry.add(
        ClipId::WalkFacing(Direction::East),
        Clip { frame_count: 6, frame_duration: 100, starting_index: 0, asset_id: 14 },
    );
    let _ = registry.add(
        ClipId::WalkFacing(Direction::SouthEast),
        Clip { frame_count: 6, frame_duration: 100, starting_index: 0, asset_id: 15 },
    );
    registry
}

} // verus!
