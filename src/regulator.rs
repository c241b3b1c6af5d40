//! The surge (RegulaTor-style) scheme: a relay-side machine that paces
//! padding at a decaying rate, and a client-side machine that releases one
//! packet per `upload_ratio` packets received.
use vstd::prelude::*;
use crate::machine::{
    certain, constant, empty_table, set_on, start_never_reentered, states_wf, target_in, Action, Dist, DistKind, Event,
    Machine, State, Target, Trans, SCALE,
};

verus! {

/// The most states that the engine accepts in one machine.
pub const MAX_STATES: usize = 100_000;

/// Why a surge machine could not be built.
#[derive(Clone, Copy, Debug, PartialEq, Eq, Structural)]
pub enum SurgeError {
    /// The upload ratio is zero.
    NoCounters,
    /// The machine would have more than [`MAX_STATES`] states.
    TooManyStates,
    /// The surge threshold is zero.
    ZeroThreshold,
    /// No packets per state were asked for.
    ZeroPackets,
    /// The first interval of the surge already has an unbounded width.
    ExhaustedAtStart,
    /// The intervals do not end with exactly one exhausted interval.
    UnfinishedSurge,
}

/// A uniform draw of zero.
pub open spec fn zero_dist() -> Dist {
    Dist { kind: DistKind::Uniform { low: 0, high: 0 }, start: 0, max: 0 }
}

/// A draw that is always infinite.
pub open spec fn forever() -> Dist {
    Dist { kind: DistKind::Infinite, start: 0, max: 0 }
}

/// Number of counter states for `upload_ratio` (millionths): its ceiling.
pub open spec fn counter_count(upload_ratio: u64) -> int {
    (upload_ratio as int + SCALE - 1) / SCALE as int
}

/// Probability (millionths) of the link from counter `i` to the next one, of
/// `n` counters: the fractional part of the ratio on the link into the last
/// counter, where there is one; certain everywhere else.
pub open spec fn link_prob(upload_ratio: u64, n: int, i: int) -> u64 {
    if i == n - 2 && upload_ratio % SCALE != 0 {
        (upload_ratio % SCALE) as u64
    } else {
        SCALE
    }
}

/// What a counter state at `curr` does on `e`, with link probability `p`:
/// each packet received moves on with probability `p` and stays otherwise.
pub open spec fn count_on(curr: usize, next: usize, p: u64, e: Event) -> Seq<Trans> {
    if p < SCALE {
        match e {
            Event::PaddingRecv => seq![
                Trans { target: Target::State(next), prob: p },
                Trans { target: Target::State(curr), prob: (SCALE - p) as u64 },
            ],
            Event::NormalRecv => seq![
                Trans { target: Target::State(next), prob: p },
                Trans { target: Target::State(curr), prob: (SCALE - p) as u64 },
            ],
            Event::LimitReached => seq![Trans { target: Target::State(next), prob: SCALE }],
            _ => seq![],
        }
    } else {
        match e {
            Event::PaddingRecv => seq![Trans { target: Target::State(next), prob: p }],
            Event::NormalRecv => seq![Trans { target: Target::State(next), prob: p }],
            _ => seq![],
        }
    }
}

/// The action of a counter state: block outgoing traffic without end, up to
/// two packets.
pub open spec fn count_action() -> Action {
    Action::BlockOutgoing {
        bypass: true,
        replace: true,
        timeout: zero_dist(),
        duration: forever(),
        limit: Some(
            Dist { kind: DistKind::Uniform { low: (2 * SCALE) as u64, high: (2 * SCALE) as u64 }, start: 0, max: 0 },
        ),
    }
}

/// What the client's send state does on `e`: back to the first counter once
/// its padding packet is out.
pub open spec fn client_send_on(e: Event) -> Seq<Trans> {
    match e {
        Event::PaddingSent => seq![Trans { target: Target::State(0), prob: SCALE }],
        _ => seq![],
    }
}

/// The action of the client's send state: one bypassing, replaceable padding
/// packet at once.
pub open spec fn client_send_action() -> Action {
    Action::SendPadding { bypass: true, replace: true, timeout: zero_dist(), limit: None }
}

/// The send state of a client-side machine.
pub fn generate_client_send_state() -> (r: State)
    ensures
        r.wf(),
        forall|e: Event| #[trigger] r.on(e) == client_send_on(e),
        r.action == Some(client_send_action()),
{
    let mut table = empty_table();
    set_on(&mut table, Event::PaddingSent, vec![certain(Target::State(0))]);
    let r = State {
        transitions: table,
        action: Some(
            Action::SendPadding { bypass: true, replace: true, timeout: constant(0), limit: None },
        ),
    };
    assert forall|e: Event| #[trigger] r.on(e) == client_send_on(e) by {
        match e {
            Event::PaddingSent => {},
            _ => {},
        }
    }
    r
}

/// A counter state at `curr_index` that moves on to `next_index` with
/// probability `prob_trans` (millionths) on each packet received.
pub fn generate_client_count_state(curr_index: usize, next_index: usize, prob_trans: u64) -> (r:
    State)
    requires
        prob_trans <= SCALE,
    ensures
        r.wf(),
        forall|e: Event| #[trigger] r.on(e) == count_on(curr_index, next_index, prob_trans, e),
        r.action == Some(count_action()),
{
    let mut table = empty_table();
    if prob_trans < SCALE {
        let stay = SCALE - prob_trans;
        set_on(
            &mut table,
            Event::PaddingRecv,
            vec![
                Trans { target: Target::State(next_index), prob: prob_trans },
                Trans { target: Target::State(curr_index), prob: stay },
            ],
        );
        set_on(
            &mut table,
            Event::NormalRecv,
            vec![
                Trans { target: Target::State(next_index), prob: prob_trans },
                Trans { target: Target::State(curr_index), prob: stay },
            ],
        );
        set_on(&mut table, Event::LimitReached, vec![certain(Target::State(next_index))]);
    } else {
        set_on(
            &mut table,
            Event::PaddingRecv,
            vec![Trans { target: Target::State(next_index), prob: prob_trans }],
        );
        set_on(
            &mut table,
            Event::NormalRecv,
            vec![Trans { target: Target::State(next_index), prob: prob_trans }],
        );
    }
    let limit = constant(2 * SCALE);
    let r = State {
        transitions: table,
        action: Some(
            Action::BlockOutgoing {
                bypass: true,
                replace: true,
                timeout: constant(0),
                duration: Dist { kind: DistKind::Infinite, start: 0, max: 0 },
                limit: Some(limit),
            },
        ),
    };
    assert forall|e: Event| #[trigger] r.on(e) == count_on(curr_index, next_index, prob_trans, e) by {
        match e {
            Event::PaddingRecv => {},
            Event::NormalRecv => {},
            Event::LimitReached => {},
            _ => {},
        }
    }
    r
}

/// State `i` of a client-side machine for `upload_ratio` with `n` counters.
pub open spec fn client_state(s: State, i: int, n: int, upload_ratio: u64) -> bool {
    &&& s.wf()
    &&& 0 <= i < n ==> {
        &&& forall|e: Event| #[trigger] s.on(e) == count_on(i as usize, (i + 1) as usize, link_prob(upload_ratio, n, i), e)
        &&& s.action == Some(count_action())
    }
    &&& i == n ==> {
        &&& forall|e: Event| #[trigger] s.on(e) == client_send_on(e)
        &&& s.action == Some(client_send_action())
    }
}

/// Builds a client-side machine for `upload_ratio` (millionths): as many
/// counter states as the ratio's ceiling, chained by certain links but the
/// one into the last counter, which carries the ratio's fractional part;
/// then the send state, which starts over.
pub fn generate_client_machine(upload_ratio: u64) -> (r: Result<Machine, SurgeError>)
    ensures
        upload_ratio == 0 <==> r == Err::<Machine, SurgeError>(SurgeError::NoCounters),
        upload_ratio != 0 ==> (r is Err <==> counter_count(upload_ratio) + 1 > MAX_STATES),
        r is Err ==> r == Err::<Machine, SurgeError>(SurgeError::NoCounters) || r == Err::<Machine, SurgeError>(SurgeError::TooManyStates),
        r matches Ok(m) ==> {
            &&& m.wf()
            &&& m.states@.len() == counter_count(upload_ratio) + 1
            &&& forall|i: int| 0 <= i < m.states@.len() ==> #[trigger] client_state(m.states@[i], i, counter_count(upload_ratio), upload_ratio)
            &&& m.allowed_padding_packets == u64::MAX
            &&& m.max_padding_frac == 0
            &&& m.allowed_blocked_microsec == u64::MAX
            &&& m.max_blocking_frac == 0
        },
{
    if upload_ratio == 0 {
        return Err(SurgeError::NoCounters);
    }
    let whole = upload_ratio / SCALE;
    let frac = upload_ratio % SCALE;
    let count = if frac != 0 { whole + 1 } else { whole };
    proof {
        vstd::arithmetic::div_mod::lemma_fundamental_div_mod(upload_ratio as int, SCALE as int);
        vstd::arithmetic::div_mod::lemma_fundamental_div_mod((upload_ratio + SCALE - 1) as int, SCALE as int);
        vstd::arithmetic::div_mod::lemma_mod_pos_bound(upload_ratio as int, SCALE as int);
        vstd::arithmetic::div_mod::lemma_mod_pos_bound((upload_ratio + SCALE - 1) as int, SCALE as int);
        assert(count == counter_count(upload_ratio));
    }
    if count >= MAX_STATES as u64 {
        return Err(SurgeError::TooManyStates);
    }
    let n = count as usize;
    let mut states: Vec<State> = Vec::new();
    let mut i: usize = 0;
    while i < n
        invariant
            n == counter_count(upload_ratio),
            1 <= n < MAX_STATES,
            frac == upload_ratio % SCALE,
            i <= n,
            states@.len() == i,
            forall|j: int| 0 <= j < i ==> #[trigger] client_state(states@[j], j, n as int, upload_ratio),
        decreases n - i,
    {
        let p = if i + 2 == n && frac != 0 { frac } else { SCALE };
        states.push(generate_client_count_state(i, i + 1, p));
        i = i + 1;
    }
    states.push(generate_client_send_state());
    let m = Machine {
        allowed_padding_packets: u64::MAX,
        max_padding_frac: 0,
        allowed_blocked_microsec: u64::MAX,
        max_blocking_frac: 0,
        states,
    };
    assert(states_wf(m.states@)) by {
        assert forall|j: int| 0 <= j < m.states@.len() implies #[trigger] m.states@[j].wf()
            && forall|e: Event, q: int| 0 <= q < m.states@[j].on(e).len()
            ==> target_in(#[trigger] m.states@[j].on(e)[q].target, m.states@.len()) by {
            assert(client_state(m.states@[j], j, n as int, upload_ratio));
        }
    }
    Ok(m)
}

/// Index of the last bootstrap state, to which a renewed surge returns.
pub const LAST_BOOT: usize = 10;

/// Index of the first send state.
pub const FIRST_SEND: usize = 11;

/// Timeout of a bootstrap state: a tenth of a second, in millionths of a
/// microsecond.
pub const BOOT_TIMEOUT: u64 = 100_000_000_000;

/// One interval of the decaying surge: the rate at its midpoint (millionths
/// of a packet per second) and whether its width came out unbounded.
#[derive(Clone, Copy, Debug, PartialEq, Eq, Structural)]
pub struct SurgeInterval {
    pub rate: u64,
    pub unbounded: bool,
}

/// The surge is over after this interval: its width is unbounded or its
/// rate below one packet per second.
pub open spec fn spec_exhausted(iv: SurgeInterval) -> bool {
    iv.unbounded || iv.rate < SCALE
}

impl SurgeInterval {
    pub fn exhausted(&self) -> (r: bool)
        ensures
            r == spec_exhausted(*self),
    {
        self.unbounded || self.rate < SCALE
    }
}

/// The pacing rate of a send state: the interval's rate, or one packet per
/// second once the surge is over.
pub open spec fn send_rate(iv: SurgeInterval) -> int {
    if spec_exhausted(iv) { SCALE as int } else { iv.rate as int }
}

/// Gap between padding packets at the pacing rate, in millionths of a
/// microsecond: `1_000_000 / rate` microseconds.
pub open spec fn send_timeout(iv: SurgeInterval) -> int {
    (SCALE * SCALE * SCALE) as int / send_rate(iv)
}

/// Probability (millionths) that real upload traffic renews the surge:
/// `2 / (threshold * rate)`.
pub open spec fn renew_prob(iv: SurgeInterval, threshold: u64) -> int {
    (2 * SCALE * SCALE * SCALE) as int / (threshold * send_rate(iv))
}

/// What the relay's start state does on `e`: the first real packet sent
/// leads to the block state.
pub open spec fn relay_start_on(e: Event) -> Seq<Trans> {
    match e {
        Event::NormalSent => seq![Trans { target: Target::State(1), prob: SCALE }],
        _ => seq![],
    }
}

/// What the block state does on `e`: bootstrapping starts once blocking has
/// begun.
pub open spec fn relay_block_on(e: Event) -> Seq<Trans> {
    match e {
        Event::BlockingBegin => seq![Trans { target: Target::State(2), prob: SCALE }],
        _ => seq![],
    }
}

/// The block state's action: block outgoing traffic without end.
pub open spec fn relay_block_action() -> Action {
    Action::BlockOutgoing { bypass: true, replace: true, timeout: zero_dist(), duration: forever(), limit: None }
}

/// What a bootstrap state at `curr` does on `e`: it keeps sending padding,
/// and moves on to `next` once a real packet is sent.
pub open spec fn boot_on(curr: usize, next: usize, e: Event) -> Seq<Trans> {
    match e {
        Event::PaddingSent => seq![Trans { target: Target::State(curr), prob: SCALE }],
        Event::NormalSent => seq![Trans { target: Target::State(next), prob: SCALE }],
        _ => seq![],
    }
}

/// A constant draw of `v`.
pub open spec fn constant_dist(v: u64) -> Dist {
    Dist { kind: DistKind::Uniform { low: v, high: v }, start: 0, max: 0 }
}

/// The action of a bootstrap state: padding at a constant gap, no limit.
pub open spec fn boot_action(timeout: u64) -> Action {
    Action::SendPadding { bypass: true, replace: true, timeout: constant_dist(timeout), limit: None }
}

/// What a send state at `curr` does on `e`: it keeps sending until its limit,
/// then moves on to `next`; past the bootstrap states, a real packet sent
/// returns to the last bootstrap state with probability `renew`.
pub open spec fn send_on(curr: usize, next: Target, renew: u64, e: Event) -> Seq<Trans> {
    match e {
        Event::PaddingSent => seq![Trans { target: Target::State(curr), prob: SCALE }],
        Event::LimitReached => seq![Trans { target: next, prob: SCALE }],
        Event::NormalSent => if curr > LAST_BOOT {
            seq![Trans { target: Target::State(LAST_BOOT), prob: renew }]
        } else {
            seq![]
        },
        _ => seq![],
    }
}

/// The action of a send state: `padding_count` packets at a constant gap.
pub open spec fn send_action(padding_count: u64, timeout: u64) -> Action {
    Action::SendPadding {
        bypass: true,
        replace: true,
        timeout: constant_dist(timeout),
        limit: Some(constant_dist(padding_count)),
    }
}

/// A send state of a relay-side machine.
pub fn generate_relay_send_state(
    curr_index: usize,
    next_index: Target,
    padding_count: u64,
    timeout: u64,
    renew: u64,
) -> (r: State)
    ensures
        r.wf(),
        forall|e: Event| #[trigger] r.on(e) == send_on(curr_index, next_index, renew, e),
        r.action == Some(send_action(padding_count, timeout)),
{
    let mut table = empty_table();
    set_on(&mut table, Event::PaddingSent, vec![certain(Target::State(curr_index))]);
    set_on(&mut table, Event::LimitReached, vec![certain(next_index)]);
    if curr_index > LAST_BOOT {
        set_on(
            &mut table,
            Event::NormalSent,
            vec![Trans { target: Target::State(LAST_BOOT), prob: renew }],
        );
    }
    let r = State {
        transitions: table,
        action: Some(
            Action::SendPadding {
                bypass: true,
                replace: true,
                timeout: constant(timeout),
                limit: Some(constant(padding_count)),
            },
        ),
    };
    assert forall|e: Event| #[trigger] r.on(e) == send_on(curr_index, next_index, renew, e) by {
        match e {
            Event::PaddingSent => {},
            Event::LimitReached => {},
            Event::NormalSent => {},
            _ => {},
        }
    }
    r
}

/// A bootstrap state at `curr_index`, moving on to `next_index`.
pub fn generate_relay_boot_state(curr_index: usize, next_index: usize, timeout: u64) -> (r: State)
    ensures
        r.wf(),
        forall|e: Event| #[trigger] r.on(e) == boot_on(curr_index, next_index, e),
        r.action == Some(boot_action(timeout)),
{
    let mut table = empty_table();
    set_on(&mut table, Event::PaddingSent, vec![certain(Target::State(curr_index))]);
    set_on(&mut table, Event::NormalSent, vec![certain(Target::State(next_index))]);
    let r = State {
        transitions: table,
        action: Some(
            Action::SendPadding { bypass: true, replace: true, timeout: constant(timeout), limit: None },
        ),
    };
    assert forall|e: Event| #[trigger] r.on(e) == boot_on(curr_index, next_index, e) by {
        match e {
            Event::PaddingSent => {},
            Event::NormalSent => {},
            _ => {},
        }
    }
    r
}

/// The block state of a relay-side machine.
pub fn generate_relay_block_state() -> (r: State)
    ensures
        r.wf(),
        forall|e: Event| #[trigger] r.on(e) == relay_block_on(e),
        r.action == Some(relay_block_action()),
{
    let mut table = empty_table();
    set_on(&mut table, Event::BlockingBegin, vec![certain(Target::State(2))]);
    let r = State {
        transitions: table,
        action: Some(
            Action::BlockOutgoing {
                bypass: true,
                replace: true,
                timeout: constant(0),
                duration: Dist { kind: DistKind::Infinite, start: 0, max: 0 },
                limit: None,
            },
        ),
    };
    assert forall|e: Event| #[trigger] r.on(e) == relay_block_on(e) by {
        match e {
            Event::BlockingBegin => {},
            _ => {},
        }
    }
    r
}

/// The start state of a relay-side machine.
pub fn generate_relay_start_state() -> (r: State)
    ensures
        r.wf(),
        forall|e: Event| #[trigger] r.on(e) == relay_start_on(e),
        r.action is None,
{
    let mut table = empty_table();
    set_on(&mut table, Event::NormalSent, vec![certain(Target::State(1))]);
    let r = State { transitions: table, action: None };
    assert forall|e: Event| #[trigger] r.on(e) == relay_start_on(e) by {
        match e {
            Event::NormalSent => {},
            _ => {},
        }
    }
    r
}

/// `SCALE` cubed: one million packets per second paced at one packet per
/// second, in millionths of microseconds.
const SCALE_CUBED: u64 = 1_000_000_000_000_000_000;

/// The gap between padding packets of the send state for `iv`.
pub fn pacing_timeout(iv: &SurgeInterval) -> (r: u64)
    ensures
        r == send_timeout(*iv),
{
    let rate = if iv.exhausted() { SCALE } else { iv.rate };
    SCALE_CUBED / rate
}

/// The probability that real upload traffic renews the surge from the send
/// state for `iv`, with surge threshold `threshold` (millionths).
pub fn renewal_probability(iv: &SurgeInterval, threshold: u64) -> (r: u64)
    requires
        threshold > 0,
    ensures
        r == renew_prob(*iv, threshold),
{
    let rate = if iv.exhausted() { SCALE } else { iv.rate };
    proof {
        vstd::arithmetic::div_mod::lemma_div_denominator((2 * SCALE_CUBED) as int, rate as int, threshold as int);
        assert(rate * threshold == threshold * rate) by (nonlinear_arith);
    }
    (2 * SCALE_CUBED / rate) / threshold
}

/// The intervals make a finished surge: the first has a bounded width, the
/// last is exhausted, and none before it is.
pub open spec fn surge_complete(ivs: Seq<SurgeInterval>) -> bool {
    &&& ivs.len() >= 1
    &&& spec_exhausted(ivs.last())
    &&& forall|k: int| 0 <= k < ivs.len() - 1 ==> !spec_exhausted(#[trigger] ivs[k])
}

/// State `i` of a relay-side machine built from `ivs`.
pub open spec fn relay_state(s: State, i: int, ivs: Seq<SurgeInterval>, packets_per_state: u64, threshold: u64) -> bool {
    &&& s.wf()
    &&& i == 0 ==> s.action is None && forall|e: Event| #[trigger] s.on(e) == relay_start_on(e)
    &&& i == 1 ==> s.action == Some(relay_block_action()) && forall|e: Event| #[trigger] s.on(e) == relay_block_on(e)
    &&& 2 <= i <= LAST_BOOT ==> {
        &&& forall|e: Event| #[trigger] s.on(e) == boot_on(i as usize, (i + 1) as usize, e)
        &&& s.action == Some(boot_action(BOOT_TIMEOUT))
    }
    &&& FIRST_SEND <= i < FIRST_SEND + ivs.len() ==> {
        let iv = ivs[i - FIRST_SEND];
        let next = if spec_exhausted(iv) { Target::End } else { Target::State((i + 1) as usize) };
        &&& forall|e: Event| #[trigger] s.on(e) == send_on(i as usize, next, renew_prob(iv, threshold) as u64, e)
        &&& s.action == Some(send_action(packets_per_state, send_timeout(iv) as u64))
    }
}

/// Builds a relay-side machine: a start state, a block state, nine bootstrap
/// states, then one send state per interval of the surge, each sending
/// `packets_per_state` packets (millionths) at the interval's pacing rate;
/// the send state of the exhausted interval ends the machine.
pub fn generate_relay_machine(packets_per_state: u64, threshold: u64, intervals: &Vec<SurgeInterval>) -> (r: Result<Machine, SurgeError>)
    ensures
        threshold == 0 ==> r == Err::<Machine, SurgeError>(SurgeError::ZeroThreshold),
        threshold != 0 && packets_per_state == 0 ==> r == Err::<Machine, SurgeError>(SurgeError::ZeroPackets),
        threshold != 0 && packets_per_state != 0 && intervals@.len() >= 1 && intervals@[0].unbounded
            ==> r == Err::<Machine, SurgeError>(SurgeError::ExhaustedAtStart),
        r is Ok <==> threshold != 0 && packets_per_state != 0 && surge_complete(intervals@)
            && !intervals@[0].unbounded && FIRST_SEND + intervals@.len() <= MAX_STATES,
        r is Err ==> r == Err::<Machine, SurgeError>(SurgeError::ZeroThreshold)
            || r == Err::<Machine, SurgeError>(SurgeError::ZeroPackets)
            || r == Err::<Machine, SurgeError>(SurgeError::ExhaustedAtStart)
            || r == Err::<Machine, SurgeError>(SurgeError::UnfinishedSurge)
            || r == Err::<Machine, SurgeError>(SurgeError::TooManyStates),
        r matches Ok(m) ==> {
            &&& m.wf()
            &&& start_never_reentered(m.states@)
            &&& m.states@.len() == FIRST_SEND + intervals@.len()
            &&& forall|i: int| 0 <= i < m.states@.len() ==> #[trigger] relay_state(m.states@[i], i, intervals@, packets_per_state, threshold)
            &&& m.allowed_padding_packets == u64::MAX
            &&& m.max_padding_frac == 0
            &&& m.allowed_blocked_microsec == u64::MAX
            &&& m.max_blocking_frac == 0
        },
{
    if threshold == 0 {
        return Err(SurgeError::ZeroThreshold);
    }
    if packets_per_state == 0 {
        return Err(SurgeError::ZeroPackets);
    }
    let len = intervals.len();
    if len == 0 {
        return Err(SurgeError::UnfinishedSurge);
    }
    if intervals[0].unbounded {
        return Err(SurgeError::ExhaustedAtStart);
    }
    let mut k: usize = 0;
    while k + 1 < len
        invariant
            k + 1 <= len,
            len == intervals@.len(),
            threshold > 0,
            packets_per_state > 0,
            !intervals@[0].unbounded,
            forall|j: int| 0 <= j < k ==> !spec_exhausted(#[trigger] intervals@[j]),
        decreases len - k,
    {
        if intervals[k].exhausted() {
            return Err(SurgeError::UnfinishedSurge);
        }
        k = k + 1;
    }
    if !intervals[len - 1].exhausted() {
        return Err(SurgeError::UnfinishedSurge);
    }
    if len > MAX_STATES - FIRST_SEND {
        return Err(SurgeError::TooManyStates);
    }
    let mut states: Vec<State> = Vec::new();
    states.push(generate_relay_start_state());
    states.push(generate_relay_block_state());
    let mut b: usize = 2;
    while b <= LAST_BOOT
        invariant
            2 <= b <= FIRST_SEND,
            states@.len() == b,
            threshold > 0,
            len == intervals@.len(),
            FIRST_SEND + len <= MAX_STATES,
            forall|j: int| 0 <= j < b ==> #[trigger] relay_state(states@[j], j, intervals@, packets_per_state, threshold),
        decreases FIRST_SEND - b,
    {
        states.push(generate_relay_boot_state(b, b + 1, BOOT_TIMEOUT));
        b = b + 1;
    }
    let mut i: usize = 0;
    while i < len
        invariant
            len == intervals@.len(),
            FIRST_SEND + len <= MAX_STATES,
            threshold > 0,
            i <= len,
            states@.len() == FIRST_SEND + i,
            forall|j: int| 0 <= j < FIRST_SEND + i ==> #[trigger] relay_state(states@[j], j, intervals@, packets_per_state, threshold),
        decreases len - i,
    {
        let iv = intervals[i];
        let curr = FIRST_SEND + i;
        let next = if iv.exhausted() { Target::End } else { Target::State(curr + 1) };
        let timeout = pacing_timeout(&iv);
        let renew = renewal_probability(&iv, threshold);
        states.push(generate_relay_send_state(curr, next, packets_per_state, timeout, renew));
        i = i + 1;
    }
    let m = Machine {
        allowed_padding_packets: u64::MAX,
        max_padding_frac: 0,
        allowed_blocked_microsec: u64::MAX,
        max_blocking_frac: 0,
        states,
    };
    assert(states_wf(m.states@)) by {
        assert forall|j: int| 0 <= j < m.states@.len() implies #[trigger] m.states@[j].wf()
            && forall|e: Event, q: int| 0 <= q < m.states@[j].on(e).len()
            ==> target_in(#[trigger] m.states@[j].on(e)[q].target, m.states@.len()) by {
            assert(relay_state(m.states@[j], j, intervals@, packets_per_state, threshold));
            if j >= FIRST_SEND && j < m.states@.len() - 1 {
                assert(!spec_exhausted(intervals@[j - FIRST_SEND]));
            }
        }
    }
    assert(start_never_reentered(m.states@)) by {
        assert forall|j: int, e: Event, q: int|
            0 <= j < m.states@.len() && 0 <= q < m.states@[j].on(e).len()
            implies (#[trigger] m.states@[j].on(e)[q]).target != Target::State(0) by {
            assert(relay_state(m.states@[j], j, intervals@, packets_per_state, threshold));
        }
    }
    Ok(m)
}

/// The surge partition goes on after the intervals `ivs` found so far: none
/// is found yet, or the last is not exhausted and the machine still has room
/// for another send state.
pub open spec fn spec_surge_continues(ivs: Seq<SurgeInterval>) -> bool {
    ivs.len() == 0 || (!spec_exhausted(ivs.last()) && FIRST_SEND + ivs.len() < MAX_STATES)
}

/// Whether the surge partition goes on after the intervals found so far.
pub fn surge_continues(ivs: &Vec<SurgeInterval>) -> (r: bool)
    ensures
        r == spec_surge_continues(ivs@),
{
    let n = ivs.len();
    if n == 0 {
        return true;
    }
    !ivs[n - 1].exhausted() && n < MAX_STATES - FIRST_SEND
}

/// The surge partition ends: it never goes on past as many intervals as a
/// machine has room for send states, whatever the rate and decay.
pub proof fn surge_partition_bounded(ivs: Seq<SurgeInterval>)
    requires
        spec_surge_continues(ivs),
    ensures
        FIRST_SEND + ivs.len() < MAX_STATES,
{
}

} // verus!
