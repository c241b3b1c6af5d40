use padgen::front::{
    area_fractions, generate_last_padding_state, generate_machine, generate_padding_state,
    generate_start_state, padding_counts, split_shares, FrontError, IntervalTiming,
};
use padgen::machine::{Action, DistKind, Event, State, Target, Trans, SCALE};

fn on(s: &State, e: Event) -> Vec<Trans> {
    s.transitions[e.index()].clone()
}

fn timings(n: usize) -> Vec<IntervalTiming> {
    (0..n)
        .map(|i| IntervalTiming { timeout: 1000 + i as u64, stdev: 50 + i as u64 })
        .collect()
}

#[test]
fn counts_sum_to_budget() {
    let c = padding_counts(3500, 4).unwrap();
    assert_eq!(c, vec![875 * SCALE; 4]);
    assert_eq!(c.iter().sum::<u64>(), 3500 * SCALE);
}

#[test]
fn counts_remainder_goes_to_last() {
    let c = padding_counts(10, 3).unwrap();
    assert_eq!(c, vec![3_333_333, 3_333_333, 3_333_334]);
    assert_eq!(c.iter().sum::<u64>(), 10 * SCALE);
}

#[test]
fn area_fractions_sum_to_one() {
    let a = area_fractions(7).unwrap();
    assert_eq!(a.len(), 7);
    assert_eq!(a[0], 142_857);
    assert_eq!(a[6], 142_858);
    assert_eq!(a.iter().sum::<u64>(), SCALE);
}

#[test]
fn split_of_one_part_is_whole() {
    assert_eq!(split_shares(17, 1), vec![17]);
}

#[test]
fn zero_states_rejected() {
    assert_eq!(padding_counts(3500, 0), Err(FrontError::NoStates));
    assert_eq!(area_fractions(0), Err(FrontError::NoStates));
    assert_eq!(generate_machine(3500, 0, &vec![]).unwrap_err(), FrontError::NoStates);
}

#[test]
fn timing_count_mismatch_rejected() {
    assert_eq!(generate_machine(3500, 4, &timings(3)).unwrap_err(), FrontError::TimingCount);
}

#[test]
fn oversized_timeout_rejected() {
    let mut t = timings(2);
    t[1].timeout = u64::MAX / 2 + 1;
    assert_eq!(generate_machine(100, 2, &t).unwrap_err(), FrontError::TimeoutRange);
}

#[test]
fn windowed_example_four_states() {
    let m = generate_machine(3500, 4, &timings(4)).unwrap();
    assert_eq!(m.states.len(), 5);
    let last = &m.states[4];
    assert_eq!(on(last, Event::LimitReached), vec![Trans { target: Target::End, prob: SCALE }]);
    assert_eq!(on(last, Event::PaddingSent), vec![Trans { target: Target::State(4), prob: SCALE }]);
    for i in 1..4 {
        assert_eq!(
            on(&m.states[i], Event::LimitReached),
            vec![Trans { target: Target::State(i + 1), prob: SCALE }]
        );
    }
    assert_eq!(m.allowed_padding_packets, u64::MAX);
    assert_eq!(m.allowed_blocked_microsec, 0);
}

#[test]
fn windowed_graph_well_formed() {
    let m = generate_machine(1000, 6, &timings(6)).unwrap();
    let n = m.states.len();
    for s in &m.states {
        assert_eq!(s.transitions.len(), 13);
        for v in &s.transitions {
            for t in v {
                match t.target {
                    Target::End => {}
                    Target::State(j) => {
                        assert!(j < n);
                        assert!(j != 0);
                    }
                }
            }
        }
    }
}

#[test]
fn padding_state_action() {
    let s = generate_padding_state(2, 3, 875 * SCALE, 400, 30);
    match s.action.unwrap() {
        Action::SendPadding { bypass, replace, timeout, limit } => {
            assert!(!bypass && !replace);
            assert_eq!(timeout.kind, DistKind::Normal { mean: 400, stdev: 30 });
            assert_eq!(timeout.max, 800);
            let l = limit.unwrap();
            assert_eq!(l.kind, DistKind::Uniform { low: SCALE, high: 875 * SCALE });
        }
        _ => panic!("expected a padding action"),
    }
    assert_eq!(on(&s, Event::LimitReached), vec![Trans { target: Target::State(3), prob: SCALE }]);
    assert!(on(&s, Event::NormalSent).is_empty());
}

#[test]
fn last_padding_state_ends() {
    let s = generate_last_padding_state(5, SCALE, 10, 1);
    assert_eq!(on(&s, Event::LimitReached), vec![Trans { target: Target::End, prob: SCALE }]);
}

#[test]
fn start_state_arms_on_real_traffic() {
    let s = generate_start_state();
    let to_one = vec![Trans { target: Target::State(1), prob: SCALE }];
    assert_eq!(on(&s, Event::NormalSent), to_one);
    assert_eq!(on(&s, Event::NormalRecv), to_one);
    assert!(on(&s, Event::PaddingSent).is_empty());
    assert!(s.action.is_none());
}

#[test]
fn budget_below_state_count_rejected() {
    assert_eq!(generate_machine(3, 4, &timings(4)).unwrap_err(), FrontError::TooFewPackets);
    assert!(generate_machine(4, 4, &timings(4)).is_ok());
}
