//! The windowed (FRONT-style) scheme: padding states whose timing follows
//! equal-area intervals of a Rayleigh curve.
use vstd::prelude::*;
use crate::machine::{
    certain, empty_table, set_on, states_wf, start_never_reentered, Action, Dist, DistKind,
    Event, Machine, State, Target, Trans, SCALE,
};

verus! {

/// Why a windowed machine could not be built.
#[derive(Clone, Copy, Debug, PartialEq, Eq, Structural)]
pub enum FrontError {
    /// No padding states were asked for.
    NoStates,
    /// The budget is smaller than the number of states, so that a state's
    /// limit would be drawn from an empty range.
    TooFewPackets,
    /// The number of timing records differs from the number of states.
    TimingCount,
    /// A timeout is too large to be doubled into its clamp.
    TimeoutRange,
}

/// Timing of one padding state: the mean gap between padding packets and its
/// spread, both in millionths of a microsecond.
#[derive(Clone, Copy, Debug, PartialEq, Eq, Structural)]
pub struct IntervalTiming {
    pub timeout: u64,
    pub stdev: u64,
}

/// Share `i` of `total` split into `n` parts: every part but the last gets
/// `total / n`, the last gets what is left.
pub open spec fn share(total: int, n: int, i: int) -> int {
    if i < n - 1 {
        total / n
    } else {
        total - (n - 1) * (total / n)
    }
}

pub open spec fn sum(s: Seq<u64>) -> int
    decreases s.len(),
{
    if s.len() == 0 {
        0
    } else {
        sum(s.drop_last()) + s.last()
    }
}

/// Where `total` holds at least `n` times `unit`, so does each of its `n`
/// shares hold at least `unit`.
pub proof fn lemma_share_at_least(total: int, n: int, unit: int, i: int)
    requires
        n >= 1,
        unit >= 0,
        total >= n * unit,
        0 <= i < n,
    ensures
        share(total, n, i) >= unit,
{
    vstd::arithmetic::div_mod::lemma_div_is_ordered(unit * n, total, n);
    vstd::arithmetic::div_mod::lemma_div_by_multiple(unit, n);
    vstd::arithmetic::div_mod::lemma_fundamental_div_mod(total, n);
    vstd::arithmetic::div_mod::lemma_mod_pos_bound(total, n);
    assert(unit * n == n * unit) by (nonlinear_arith);
    let q = total / n;
    assert(n * q == (n - 1) * q + q) by (nonlinear_arith);
}

/// The `n` shares of `total`, in order.
pub open spec fn shares(total: int, n: int) -> Seq<int> {
    Seq::new(n as nat, |i: int| share(total, n, i))
}

/// Splits `total` into `n` shares (see [`share`]).
pub fn split_shares(total: u64, n: usize) -> (r: Vec<u64>)
    requires
        n >= 1,
    ensures
        r@.len() == n,
        forall|i: int| 0 <= i < n ==> r@[i] == share(total as int, n as int, i),
        sum(r@) == total,
{
    let part = total / (n as u64);
    let mut r: Vec<u64> = Vec::new();
    let mut i: usize = 0;
    proof {
        vstd::arithmetic::div_mod::lemma_fundamental_div_mod(total as int, n as int);
        vstd::arithmetic::div_mod::lemma_mod_pos_bound(total as int, n as int);
        assert(part * n == n * part) by (nonlinear_arith);
    }
    while i + 1 < n
        invariant
            n >= 1,
            i + 1 <= n,
            part == total / (n as u64),
            part * n <= total,
            r@.len() == i,
            forall|j: int| 0 <= j < i ==> r@[j] == share(total as int, n as int, j),
            sum(r@) == i * part,
        decreases n - i,
    {
        proof {
            assert(r@.push(part).drop_last() == r@);
            assert((i + 1) * part == i * part + part) by (nonlinear_arith);
            assert(part * (i + 1) <= part * n) by (nonlinear_arith)
                requires i + 1 < n;
        }
        r.push(part);
        i = i + 1;
    }
    proof {
        assert(i * part == (n - 1) * part);
        assert(part * (n - 1) <= part * n) by (nonlinear_arith)
            requires n >= 1;
        assert(r@.push((total - i * part) as u64).drop_last() == r@);
    }
    let last = total - (i as u64) * part;
    r.push(last);
    r
}

/// The padding packets that each of `num_states` states places out of
/// `padding_budget`, in millionths of a packet: equal shares, the last one
/// taking the remainder so that nothing of the budget is lost.
pub fn padding_counts(padding_budget: u32, num_states: usize) -> (r: Result<Vec<u64>, FrontError>)
    ensures
        num_states == 0 <==> r is Err,
        r is Err ==> r == Err::<Vec<u64>, FrontError>(FrontError::NoStates),
        r matches Ok(v) ==> v@.len() == num_states && forall|i: int|
            0 <= i < num_states ==> v@[i] == share(
                padding_budget * SCALE,
                num_states as int,
                i,
            ),
        r matches Ok(v) ==> sum(v@) == padding_budget * SCALE,
{
    if num_states == 0 {
        return Err(FrontError::NoStates);
    }
    assert(padding_budget * SCALE <= u32::MAX * SCALE) by (nonlinear_arith);
    Ok(split_shares((padding_budget as u64) * SCALE, num_states))
}

/// The fraction of the curve's area that each of `num_states` states covers,
/// in millionths.
pub fn area_fractions(num_states: usize) -> (r: Result<Vec<u64>, FrontError>)
    ensures
        num_states == 0 <==> r is Err,
        r is Err ==> r == Err::<Vec<u64>, FrontError>(FrontError::NoStates),
        r matches Ok(v) ==> v@.len() == num_states && forall|i: int|
            0 <= i < num_states ==> v@[i] == share(SCALE as int, num_states as int, i),
        r matches Ok(v) ==> sum(v@) == SCALE,
{
    if num_states == 0 {
        return Err(FrontError::NoStates);
    }
    Ok(split_shares(SCALE, num_states))
}

/// What a padding state at `curr` that moves on to `next` does on event `e`:
/// it stays on each padding packet sent and moves on when its limit is reached.
pub open spec fn padding_on(curr: usize, next: Target, e: Event) -> Seq<Trans> {
    match e {
        Event::PaddingSent => seq![Trans { target: Target::State(curr), prob: SCALE }],
        Event::LimitReached => seq![Trans { target: next, prob: SCALE }],
        _ => seq![],
    }
}

/// The action of a padding state: normally distributed gaps clamped at twice
/// their mean, and a limit drawn uniformly between one packet and
/// `padding_count`.
pub open spec fn padding_action(padding_count: u64, timeout: u64, stdev: u64) -> Action {
    Action::SendPadding {
        bypass: false,
        replace: false,
        timeout: Dist {
            kind: DistKind::Normal { mean: timeout, stdev },
            start: 0,
            max: (2 * timeout) as u64,
        },
        limit: Some(
            Dist { kind: DistKind::Uniform { low: SCALE, high: padding_count }, start: 0, max: 0 },
        ),
    }
}

/// What the start state does on `e`: the first real packet, either way, arms
/// the machine.
pub open spec fn start_on(e: Event) -> Seq<Trans> {
    match e {
        Event::NormalSent => seq![Trans { target: Target::State(1), prob: SCALE }],
        Event::NormalRecv => seq![Trans { target: Target::State(1), prob: SCALE }],
        _ => seq![],
    }
}

fn padding_state(curr: usize, next: Target, padding_count: u64, timeout: u64, stdev: u64) -> (r:
    State)
    requires
        timeout <= u64::MAX / 2,
    ensures
        r.wf(),
        forall|e: Event| #[trigger] r.on(e) == padding_on(curr, next, e),
        r.action == Some(padding_action(padding_count, timeout, stdev)),
{
    let mut table = empty_table();
    set_on(&mut table, Event::PaddingSent, vec![certain(Target::State(curr))]);
    set_on(&mut table, Event::LimitReached, vec![certain(next)]);
    let timeout_dist = Dist {
        kind: DistKind::Normal { mean: timeout, stdev },
        start: 0,
        max: timeout * 2,
    };
    let limit = Dist { kind: DistKind::Uniform { low: SCALE, high: padding_count }, start: 0, max: 0 };
    let r = State {
        transitions: table,
        action: Some(Action::SendPadding { bypass: false, replace: false, timeout: timeout_dist, limit: Some(limit) }),
    };
    assert forall|e: Event| #[trigger] r.on(e) == padding_on(curr, next, e) by {
        match e {
            Event::PaddingSent => {},
            Event::LimitReached => {},
            _ => {},
        }
    }
    r
}

/// A padding state at `curr_index` that moves on to state `next_index`.
pub fn generate_padding_state(
    curr_index: usize,
    next_index: usize,
    padding_count: u64,
    timeout: u64,
    stdev: u64,
) -> (r: State)
    requires
        timeout <= u64::MAX / 2,
    ensures
        r.wf(),
        forall|e: Event|
            #[trigger] r.on(e) == padding_on(curr_index, Target::State(next_index), e),
        r.action == Some(padding_action(padding_count, timeout, stdev)),
{
    padding_state(curr_index, Target::State(next_index), padding_count, timeout, stdev)
}

/// The last padding state, at `curr_index`, which ends the machine.
pub fn generate_last_padding_state(curr_index: usize, padding_count: u64, timeout: u64, stdev: u64) -> (r: State)
    requires
        timeout <= u64::MAX / 2,
    ensures
        r.wf(),
        forall|e: Event| #[trigger] r.on(e) == padding_on(curr_index, Target::End, e),
        r.action == Some(padding_action(padding_count, timeout, stdev)),
{
    padding_state(curr_index, Target::End, padding_count, timeout, stdev)
}

/// The start state of a windowed machine.
pub fn generate_start_state() -> (r: State)
    ensures
        r.wf(),
        forall|e: Event| #[trigger] r.on(e) == start_on(e),
        r.action is None,
{
    let mut table = empty_table();
    set_on(&mut table, Event::NormalSent, vec![certain(Target::State(1))]);
    set_on(&mut table, Event::NormalRecv, vec![certain(Target::State(1))]);
    let r = State { transitions: table, action: None };
    assert forall|e: Event| #[trigger] r.on(e) == start_on(e) by {
        match e {
            Event::NormalSent => {},
            Event::NormalRecv => {},
            _ => {},
        }
    }
    r
}

/// Where padding state `i` of `n` moves on to: the next one, or the end after
/// the last.
pub open spec fn front_next(i: int, n: int) -> Target {
    if i < n {
        Target::State((i + 1) as usize)
    } else {
        Target::End
    }
}

/// State `i` of a windowed machine with `n` padding states, the budget and
/// the timings given.
pub open spec fn front_state(s: State, i: int, n: int, padding_budget: u32, timings: Seq<IntervalTiming>) -> bool {
    &&& s.wf()
    &&& i == 0 ==> s.action is None && forall|e: Event| #[trigger] s.on(e) == start_on(e)
    &&& 1 <= i <= n ==> {
        &&& forall|e: Event| #[trigger] s.on(e) == padding_on(i as usize, front_next(i, n), e)
        &&& s.action == Some(
            padding_action(
                share(padding_budget * SCALE, n, i - 1) as u64,
                timings[i - 1].timeout,
                timings[i - 1].stdev,
            ),
        )
    }
}

/// Builds a windowed machine: a start state, then `num_states` padding
/// states, state `i` placing the `i`-th share of the padding budget with the
/// `i`-th timing, the last one ending the machine.
pub fn generate_machine(padding_budget: u32, num_states: usize, timings: &Vec<IntervalTiming>) -> (r: Result<Machine, FrontError>)
    ensures
        num_states == 0 ==> r == Err::<Machine, FrontError>(FrontError::NoStates),
        num_states != 0 && padding_budget < num_states ==> r == Err::<Machine, FrontError>(FrontError::TooFewPackets),
        num_states != 0 && padding_budget >= num_states && timings@.len() != num_states ==> r == Err::<Machine, FrontError>(FrontError::TimingCount),
        num_states != 0 && padding_budget >= num_states && timings@.len() == num_states ==> (r is Err <==> exists|i: int| 0 <= i < num_states && #[trigger] timings@[i].timeout > u64::MAX / 2),
        r is Err ==> r == Err::<Machine, FrontError>(FrontError::NoStates) || r == Err::<Machine, FrontError>(FrontError::TooFewPackets) || r == Err::<Machine, FrontError>(FrontError::TimingCount) || r == Err::<Machine, FrontError>(FrontError::TimeoutRange),
        r matches Ok(m) ==> {
            &&& m.wf()
            &&& start_never_reentered(m.states@)
            &&& m.states@.len() == num_states + 1
            &&& forall|i: int| 0 <= i < num_states ==> SCALE <= #[trigger] share(padding_budget * SCALE, num_states as int, i)
            &&& forall|i: int| 0 <= i <= num_states ==> #[trigger] front_state(m.states@[i], i, num_states as int, padding_budget, timings@)
            &&& m.allowed_padding_packets == u64::MAX
            &&& m.max_padding_frac == 0
            &&& m.allowed_blocked_microsec == 0
            &&& m.max_blocking_frac == 0
        },
{
    let counts = match padding_counts(padding_budget, num_states) {
        Ok(c) => c,
        Err(e) => return Err(e),
    };
    if (padding_budget as usize) < num_states {
        return Err(FrontError::TooFewPackets);
    }
    assert forall|i: int| 0 <= i < num_states implies SCALE <= #[trigger] share(padding_budget * SCALE, num_states as int, i) by {
        assert(padding_budget * SCALE >= num_states * SCALE) by (nonlinear_arith)
            requires padding_budget >= num_states;
        lemma_share_at_least(padding_budget * SCALE, num_states as int, SCALE as int, i);
    }
    if timings.len() != num_states {
        return Err(FrontError::TimingCount);
    }
    let mut k: usize = 0;
    while k < num_states
        invariant
            k <= num_states,
            timings@.len() == num_states,
            padding_budget >= num_states,
            forall|j: int| 0 <= j < k ==> #[trigger] timings@[j].timeout <= u64::MAX / 2,
        decreases num_states - k,
    {
        if timings[k].timeout > u64::MAX / 2 {
            return Err(FrontError::TimeoutRange);
        }
        k = k + 1;
    }
    let n = num_states;
    let mut states: Vec<State> = Vec::new();
    states.push(generate_start_state());
    let mut i: usize = 0;
    while i < n
        invariant
            1 <= n,
            i <= n,
            timings@.len() == n,
            counts@.len() == n,
            forall|j: int| 0 <= j < n ==> counts@[j] == share(padding_budget * SCALE, n as int, j),
            forall|j: int| 0 <= j < n ==> #[trigger] timings@[j].timeout <= u64::MAX / 2,
            states@.len() == i + 1,
            forall|j: int| 0 <= j <= i ==> #[trigger] front_state(states@[j], j, n as int, padding_budget, timings@),
        decreases n - i,
    {
        let t = timings[i];
        let s = if i + 1 < n {
            generate_padding_state(i + 1, i + 2, counts[i], t.timeout, t.stdev)
        } else {
            generate_last_padding_state(i + 1, counts[i], t.timeout, t.stdev)
        };
        states.push(s);
        i = i + 1;
    }
    let m = Machine {
        allowed_padding_packets: u64::MAX,
        max_padding_frac: 0,
        allowed_blocked_microsec: 0,
        max_blocking_frac: 0,
        states,
    };
    assert(states_wf(m.states@)) by {
        assert forall|j: int| 0 <= j < m.states@.len() implies #[trigger] m.states@[j].wf()
            && forall|e: Event, q: int| 0 <= q < m.states@[j].on(e).len()
            ==> crate::machine::target_in(#[trigger] m.states@[j].on(e)[q].target, m.states@.len()) by {
            assert(front_state(m.states@[j], j, n as int, padding_budget, timings@));
        }
    }
    assert(start_never_reentered(m.states@)) by {
        assert forall|j: int, e: Event, q: int|
            0 <= j < m.states@.len() && 0 <= q < m.states@[j].on(e).len()
            implies (#[trigger] m.states@[j].on(e)[q]).target != Target::State(0) by {
            assert(front_state(m.states@[j], j, n as int, padding_budget, timings@));
        }
    }
    Ok(m)
}

} // verus!
