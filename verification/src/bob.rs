use vstd::prelude::*;

verus! {

/// Which way an idle pickup sprite is drifting in its bobbing cycle.
#[derive(Clone, Copy, Debug, PartialEq, Eq, Structural)]
pub enum BobPhase {
    Rising,
    Falling,
}

/// Tick counter of the bobbing cycle of an idle pickup sprite: the
/// counter climbs to the limit while rising, then runs from the limit's
/// negation while falling, and wraps back to rising. The caller moves
/// the sprite a fixed step up or down according to the phase.
#[derive(Clone, Copy, Debug, PartialEq, Eq, Structural)]
pub struct BobState {
    pub counter: i32,
    pub phase: BobPhase,
}

impl BobState {
    /// The counter stays inside one cycle of the given limit.
    pub open spec fn in_cycle_bounds(self, limit: int) -> bool {
        -limit - 1 <= self.counter <= limit
    }

    /// A bob starting at the bottom of its rising half.
    pub fn new() -> (state: BobState)
        ensures
            state == (BobState { counter: 0, phase: BobPhase::Rising }),
    {
        BobState { counter: 0, phase: BobPhase::Rising }
    }
}

/// The transition the oscillator makes each tick: count up through the
/// rising half, roll over to the falling half at the limit, count down
/// through it, and start over one tick after its end.
pub open spec fn bob_next(state: BobState, limit: int) -> BobState {
    if state.counter < limit && state.phase is Rising {
        BobState { counter: (state.counter + 1) as i32, phase: BobPhase::Rising }
    } else if state.counter >= limit && state.phase is Rising {
        BobState { counter: 0, phase: BobPhase::Falling }
    } else if state.counter >= -limit && state.phase is Falling {
        BobState { counter: (state.counter - 1) as i32, phase: state.phase }
    } else {
        BobState { counter: 0, phase: BobPhase::Rising }
    }
}

impl BobState {
    /// Advances the oscillator one tick.
    pub fn step(&mut self, limit: i32)
        requires
            0 < limit < i32::MAX,
            old(self).in_cycle_bounds(limit as int),
        ensures
            *final(self) == bob_next(*old(self), limit as int),
            final(self).in_cycle_bounds(limit as int),
    {
        if self.counter < limit && matches!(self.phase, BobPhase::Rising) {
            self.counter = self.counter + 1;
        } else if self.counter >= limit && matches!(self.phase, BobPhase::Rising) {
            self.counter = 0;
            self.phase = BobPhase::Falling;
        } else if self.counter >= -limit && matches!(self.phase, BobPhase::Falling) {
            self.counter = self.counter - 1;
        } else {
            self.phase = BobPhase::Rising;
            self.counter = 0;
        }
    }
}

} // verus!
