//! The decisions of the interval searches. A search moves a probe point by a
//! step until the area (or packet count) between the interval's start and the
//! probe is within tolerance of its target; the curve itself is evaluated by
//! the caller, which reports how the last evaluation compares to the target.
use vstd::prelude::*;

verus! {

/// The most probe moves a search makes before it gives up.
pub const MAX_SEARCH_STEPS: u32 = 2000;

/// How the last evaluation compares to the target.
#[derive(Clone, Copy, Debug, PartialEq, Eq, Structural)]
pub enum Gap {
    /// Within tolerance.
    Within,
    /// Short of the target: the interval must widen.
    Short,
    /// Beyond the target: the interval must narrow.
    Over,
}

/// What happens to the step after a move.
#[derive(Clone, Copy, Debug, PartialEq, Eq, Structural)]
pub enum StepChange {
    Halve,
    Double,
}

/// The next thing a search does.
#[derive(Clone, Copy, Debug, PartialEq, Eq, Structural)]
pub enum Move {
    /// The probe has converged: the interval ends at it.
    Done,
    /// Move the probe away from the start by the step, then change the step.
    Widen(StepChange),
    /// Move the probe toward the start by the step, then change the step.
    Narrow(StepChange),
    /// The search did not converge within [`MAX_SEARCH_STEPS`] moves.
    NotConverged,
}

/// The state of one search. A halving search starts with its probe at the
/// far end of the range and its step at half the range, and halves the step
/// after every move; an adaptive one doubles it until the probe first
/// overshoots, and halves it from then on.
///
/// `probe` is, for a halving search, the probe's distance from the start of
/// the interval measured in current steps.
#[derive(Clone, Copy)]
pub struct Search {
    pub steps: u32,
    pub adaptive: bool,
    pub reversed: bool,
    pub probe: Ghost<int>,
}

/// The step change after a move of `s` in the direction `gap` calls for.
pub open spec fn change_after(s: Search, gap: Gap) -> StepChange {
    if s.adaptive && !(s.reversed || gap == Gap::Over) {
        StepChange::Double
    } else {
        StepChange::Halve
    }
}

/// What a search in state `s` does when told `gap`.
pub open spec fn move_of(s: Search, gap: Gap) -> Move {
    if gap == Gap::Within {
        Move::Done
    } else if s.steps >= MAX_SEARCH_STEPS {
        Move::NotConverged
    } else if gap == Gap::Over {
        Move::Narrow(change_after(s, gap))
    } else {
        Move::Widen(change_after(s, gap))
    }
}

/// The state of a search in state `s` after it is told `gap`.
pub open spec fn state_after(s: Search, gap: Gap) -> Search {
    if gap == Gap::Within || s.steps >= MAX_SEARCH_STEPS {
        s
    } else if gap == Gap::Over {
        Search {
            steps: (s.steps + 1) as u32,
            reversed: true,
            probe: Ghost(2 * (s.probe@ - 1)),
            ..s
        }
    } else {
        Search { steps: (s.steps + 1) as u32, probe: Ghost(2 * (s.probe@ + 1)), ..s }
    }
}

/// The state of a search in state `s` after it is told each of `gaps` in turn.
pub open spec fn run(s: Search, gaps: Seq<Gap>) -> Search
    decreases gaps.len(),
{
    if gaps.len() == 0 {
        s
    } else {
        state_after(run(s, gaps.drop_last()), gaps.last())
    }
}

/// A fresh halving search.
pub open spec fn halving_start() -> Search {
    Search { steps: 0, adaptive: false, reversed: false, probe: Ghost(2) }
}

/// A fresh adaptive search.
pub open spec fn adaptive_start() -> Search {
    Search { steps: 0, adaptive: true, reversed: false, probe: Ghost(0) }
}

impl Search {
    pub open spec fn wf(&self) -> bool {
        &&& self.steps <= MAX_SEARCH_STEPS
        &&& !self.adaptive ==> self.probe@ >= 2
    }

    /// A search that halves its step after every move (the Rayleigh
    /// partition).
    pub fn halving() -> (r: Search)
        ensures
            r == halving_start(),
    {
        Search { steps: 0, adaptive: false, reversed: false, probe: Ghost(2) }
    }

    /// A search that doubles its step until it first overshoots (the decay
    /// partition).
    pub fn adaptive() -> (r: Search)
        ensures
            r == adaptive_start(),
    {
        Search { steps: 0, adaptive: true, reversed: false, probe: Ghost(0) }
    }

    /// Decides the next move from how the last evaluation compares to the
    /// target: done within tolerance; otherwise, until the cap, a move
    /// toward the target, and past the cap a refusal.
    pub fn next(&mut self, gap: Gap) -> (r: Move)
        ensures
            r == move_of(*old(self), gap),
            *final(self) == state_after(*old(self), gap),
    {
        if gap == Gap::Within {
            return Move::Done;
        }
        if self.steps >= MAX_SEARCH_STEPS {
            return Move::NotConverged;
        }
        self.steps = self.steps + 1;
        if gap == Gap::Over {
            self.reversed = true;
            self.probe = Ghost(2 * (self.probe@ - 1));
        } else {
            self.probe = Ghost(2 * (self.probe@ + 1));
        }
        let change = if self.adaptive && !self.reversed {
            StepChange::Double
        } else {
            StepChange::Halve
        };
        if gap == Gap::Over {
            Move::Narrow(change)
        } else {
            Move::Widen(change)
        }
    }
}

/// Whatever the evaluations report, a search never makes more than
/// [`MAX_SEARCH_STEPS`] moves: once there, it answers `NotConverged` to all
/// but a gap within tolerance.
pub proof fn search_bounded(s: Search, gaps: Seq<Gap>)
    requires
        s.wf(),
    ensures
        run(s, gaps).wf(),
        run(s, gaps).steps <= MAX_SEARCH_STEPS,
        run(s, gaps).steps == MAX_SEARCH_STEPS ==> forall|g: Gap|
            g != Gap::Within ==> move_of(#[trigger] run(s, gaps), g) == Move::NotConverged,
    decreases gaps.len(),
{
    if gaps.len() > 0 {
        search_bounded(s, gaps.drop_last());
    }
}

/// A halving search never moves its probe onto or behind the start of the
/// interval: whatever the evaluations report, the probe stays at least two
/// current steps past the start, so every width it ends on is strictly
/// positive and successive interval starts strictly increase.
pub proof fn halving_width_positive(gaps: Seq<Gap>)
    ensures
        run(halving_start(), gaps).probe@ >= 2,
        !run(halving_start(), gaps).adaptive,
    decreases gaps.len(),
{
    search_bounded(halving_start(), gaps);
    if gaps.len() > 0 {
        halving_width_positive(gaps.drop_last());
    }
}

} // verus!
