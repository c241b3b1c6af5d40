//! The machine descriptor: states, transitions, actions and distributions.
use vstd::prelude::*;

verus! {

/// Fixed-point scale: a real value `x` is carried as the integer `x * SCALE`.
pub const SCALE: u64 = 1_000_000;

/// Number of event kinds that a state reacts to.
pub const EVENT_COUNT: usize = 13;

/// The closed set of events that can trigger a transition.
#[derive(Clone, Copy, Debug, PartialEq, Eq, Structural)]
pub enum Event {
    NormalRecv,
    PaddingRecv,
    TunnelRecv,
    NormalSent,
    PaddingSent,
    TunnelSent,
    BlockingBegin,
    BlockingEnd,
    LimitReached,
    CounterZero,
    TimerBegin,
    TimerEnd,
    Signal,
}

impl Event {
    /// Position of the event in a state's transition table.
    pub open spec fn spec_index(self) -> nat {
        match self {
            Event::NormalRecv => 0,
            Event::PaddingRecv => 1,
            Event::TunnelRecv => 2,
            Event::NormalSent => 3,
            Event::PaddingSent => 4,
            Event::TunnelSent => 5,
            Event::BlockingBegin => 6,
            Event::BlockingEnd => 7,
            Event::LimitReached => 8,
            Event::CounterZero => 9,
            Event::TimerBegin => 10,
            Event::TimerEnd => 11,
            Event::Signal => 12,
        }
    }

    pub fn index(self) -> (r: usize)
        ensures
            r == self.spec_index(),
            r < EVENT_COUNT,
    {
        match self {
            Event::NormalRecv => 0,
            Event::PaddingRecv => 1,
            Event::TunnelRecv => 2,
            Event::NormalSent => 3,
            Event::PaddingSent => 4,
            Event::TunnelSent => 5,
            Event::BlockingBegin => 6,
            Event::BlockingEnd => 7,
            Event::LimitReached => 8,
            Event::CounterZero => 9,
            Event::TimerBegin => 10,
            Event::TimerEnd => 11,
            Event::Signal => 12,
        }
    }
}

/// Where a transition leads: another state by index, or the end of the machine.
#[derive(Clone, Copy, Debug, PartialEq, Eq, Structural)]
pub enum Target {
    End,
    State(usize),
}

/// A transition to `target`, taken with probability `prob / SCALE`.
#[derive(Clone, Copy, Debug, PartialEq, Eq, Structural)]
pub struct Trans {
    pub target: Target,
    pub prob: u64,
}

/// The shape of a random draw.
#[derive(Clone, Copy, Debug, PartialEq, Eq, Structural)]
pub enum DistKind {
    Normal { mean: u64, stdev: u64 },
    Uniform { low: u64, high: u64 },
    /// Always draws an infinite value.
    Infinite,
}

/// A random draw: a sample of `kind` added to `start`, clamped at `max`
/// (no clamp where `max` is zero).
#[derive(Clone, Copy, Debug, PartialEq, Eq, Structural)]
pub struct Dist {
    pub kind: DistKind,
    pub start: u64,
    pub max: u64,
}

/// What a state does when it is entered.
#[derive(Clone, Copy, Debug, PartialEq, Eq, Structural)]
pub enum Action {
    SendPadding { bypass: bool, replace: bool, timeout: Dist, limit: Option<Dist> },
    BlockOutgoing {
        bypass: bool,
        replace: bool,
        timeout: Dist,
        duration: Dist,
        limit: Option<Dist>,
    },
}

/// One state: for each event kind (by [`Event::index`]) the transitions it
/// triggers, and an optional action.
#[derive(Debug)]
pub struct State {
    pub transitions: Vec<Vec<Trans>>,
    pub action: Option<Action>,
}

/// A complete machine: budgets and the states, addressed by their position.
#[derive(Debug)]
pub struct Machine {
    pub allowed_padding_packets: u64,
    pub max_padding_frac: u64,
    pub allowed_blocked_microsec: u64,
    pub max_blocking_frac: u64,
    pub states: Vec<State>,
}

impl State {
    /// The table covers every event kind.
    pub open spec fn wf(&self) -> bool {
        self.transitions@.len() == EVENT_COUNT
    }

    /// The transitions that event `e` triggers.
    pub open spec fn on(&self, e: Event) -> Seq<Trans> {
        self.transitions@[e.spec_index() as int]@
    }
}

/// A target that is the end or one of `n` states.
pub open spec fn target_in(t: Target, n: nat) -> bool {
    match t {
        Target::End => true,
        Target::State(j) => j < n,
    }
}

/// Every state covers every event, and every transition leads to a state of
/// the machine or to its end.
pub open spec fn states_wf(states: Seq<State>) -> bool {
    forall|i: int| 0 <= i < states.len() ==> #[trigger] states[i].wf()
        && forall|e: Event, k: int| 0 <= k < states[i].on(e).len()
            ==> target_in(#[trigger] states[i].on(e)[k].target, states.len())
}

/// No transition of any state leads back to the first state.
pub open spec fn start_never_reentered(states: Seq<State>) -> bool {
    forall|i: int, e: Event, k: int|
        0 <= i < states.len() && 0 <= k < states[i].on(e).len()
            ==> (#[trigger] states[i].on(e)[k]).target != Target::State(0)
}

impl Machine {
    pub open spec fn wf(&self) -> bool {
        states_wf(self.states@)
    }
}

/// A transition table in which no event triggers anything.
pub fn empty_table() -> (r: Vec<Vec<Trans>>)
    ensures
        r@.len() == EVENT_COUNT,
        forall|i: int| 0 <= i < EVENT_COUNT ==> (#[trigger] r@[i])@.len() == 0,
{
    let mut r: Vec<Vec<Trans>> = Vec::new();
    let mut i: usize = 0;
    while i < EVENT_COUNT
        invariant
            i <= EVENT_COUNT,
            r@.len() == i,
            forall|j: int| 0 <= j < i ==> (#[trigger] r@[j])@.len() == 0,
        decreases EVENT_COUNT - i,
    {
        r.push(Vec::new());
        i = i + 1;
    }
    r
}

/// Sets the transitions that `e` triggers in `table`.
pub fn set_on(table: &mut Vec<Vec<Trans>>, e: Event, v: Vec<Trans>)
    requires
        old(table)@.len() == EVENT_COUNT,
    ensures
        final(table)@ == old(table)@.update(e.spec_index() as int, v),
{
    table.set(e.index(), v);
}

/// A transition taken with certainty.
pub fn certain(target: Target) -> (r: Trans)
    ensures
        r == (Trans { target, prob: SCALE }),
{
    Trans { target, prob: SCALE }
}

/// A uniform draw of exactly `v`.
pub fn constant(v: u64) -> (r: Dist)
    ensures
        r == (Dist { kind: DistKind::Uniform { low: v, high: v }, start: 0, max: 0 }),
{
    Dist { kind: DistKind::Uniform { low: v, high: v }, start: 0, max: 0 }
}

} // verus!
