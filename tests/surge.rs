use padgen::machine::{Action, DistKind, Event, State, Target, Trans, SCALE};
use padgen::regulator::{
    generate_client_count_state, generate_client_machine, generate_client_send_state,
    generate_relay_block_state, generate_relay_boot_state, generate_relay_machine,
    generate_relay_send_state, generate_relay_start_state, pacing_timeout, renewal_probability,
    surge_continues, SurgeError, SurgeInterval, MAX_STATES,
};

fn on(s: &State, e: Event) -> Vec<Trans> {
    s.transitions[e.index()].clone()
}

fn iv(rate: u64) -> SurgeInterval {
    SurgeInterval { rate, unbounded: false }
}

#[test]
fn client_example_two_and_a_half() {
    let m = generate_client_machine(2_500_000).unwrap();
    assert_eq!(m.states.len(), 4);
    let link = vec![
        Trans { target: Target::State(2), prob: 500_000 },
        Trans { target: Target::State(1), prob: 500_000 },
    ];
    assert_eq!(on(&m.states[1], Event::PaddingRecv), link);
    assert_eq!(on(&m.states[1], Event::NormalRecv), link);
    assert_eq!(
        on(&m.states[0], Event::PaddingRecv),
        vec![Trans { target: Target::State(1), prob: SCALE }]
    );
    assert_eq!(
        on(&m.states[2], Event::NormalRecv),
        vec![Trans { target: Target::State(3), prob: SCALE }]
    );
    assert_eq!(
        on(&m.states[3], Event::PaddingSent),
        vec![Trans { target: Target::State(0), prob: SCALE }]
    );
    for s in &m.states[..3] {
        assert!(matches!(s.action, Some(Action::BlockOutgoing { .. })));
    }
    assert!(matches!(m.states[3].action, Some(Action::SendPadding { .. })));
}

#[test]
fn client_integer_ratio_all_certain() {
    let m = generate_client_machine(3 * SCALE).unwrap();
    assert_eq!(m.states.len(), 4);
    for i in 0..3 {
        assert_eq!(
            on(&m.states[i], Event::PaddingRecv),
            vec![Trans { target: Target::State(i + 1), prob: SCALE }]
        );
        assert!(on(&m.states[i], Event::LimitReached).is_empty());
    }
}

#[test]
fn client_zero_ratio_rejected() {
    assert_eq!(generate_client_machine(0).unwrap_err(), SurgeError::NoCounters);
}

#[test]
fn client_huge_ratio_rejected() {
    assert_eq!(
        generate_client_machine(u64::MAX).unwrap_err(),
        SurgeError::TooManyStates
    );
}

#[test]
fn client_count_state_limit() {
    let s = generate_client_count_state(0, 1, 250_000);
    assert_eq!(
        on(&s, Event::LimitReached),
        vec![Trans { target: Target::State(1), prob: SCALE }]
    );
    match s.action.unwrap() {
        Action::BlockOutgoing { duration, limit, .. } => {
            assert_eq!(duration.kind, DistKind::Infinite);
            assert_eq!(limit.unwrap().kind, DistKind::Uniform { low: 2 * SCALE, high: 2 * SCALE });
        }
        _ => panic!("expected blocking"),
    }
}

#[test]
fn client_send_state_loops() {
    let s = generate_client_send_state();
    assert_eq!(on(&s, Event::PaddingSent), vec![Trans { target: Target::State(0), prob: SCALE }]);
    assert!(matches!(
        s.action,
        Some(Action::SendPadding { bypass: true, replace: true, limit: None, .. })
    ));
}

#[test]
fn pacing_and_renewal_values() {
    // 100 packets per second: 10 ms between packets.
    assert_eq!(pacing_timeout(&iv(100 * SCALE)), 10_000 * SCALE);
    // 2 / (threshold 4 * rate 100) = 0.005
    assert_eq!(renewal_probability(&iv(100 * SCALE), 4 * SCALE), 5_000);
    // Exhausted intervals pace at one packet per second.
    let done = SurgeInterval { rate: 5, unbounded: false };
    assert_eq!(pacing_timeout(&done), SCALE * SCALE);
    assert_eq!(renewal_probability(&done, 2 * SCALE), SCALE);
}

#[test]
fn relay_machine_layout() {
    let ivs = vec![iv(50 * SCALE), iv(20 * SCALE), SurgeInterval { rate: 0, unbounded: true }];
    let m = generate_relay_machine(10 * SCALE, 4 * SCALE, &ivs).unwrap();
    assert_eq!(m.states.len(), 14);
    assert_eq!(on(&m.states[0], Event::NormalSent), vec![Trans { target: Target::State(1), prob: SCALE }]);
    assert_eq!(on(&m.states[1], Event::BlockingBegin), vec![Trans { target: Target::State(2), prob: SCALE }]);
    for b in 2..=10 {
        assert_eq!(
            on(&m.states[b], Event::NormalSent),
            vec![Trans { target: Target::State(b + 1), prob: SCALE }]
        );
    }
    assert_eq!(
        on(&m.states[11], Event::NormalSent),
        vec![Trans { target: Target::State(10), prob: 10_000 }]
    );
    assert_eq!(
        on(&m.states[12], Event::NormalSent),
        vec![Trans { target: Target::State(10), prob: 25_000 }]
    );
    assert_eq!(
        on(&m.states[12], Event::LimitReached),
        vec![Trans { target: Target::State(13), prob: SCALE }]
    );
    assert_eq!(on(&m.states[13], Event::LimitReached), vec![Trans { target: Target::End, prob: SCALE }]);
    match m.states[11].action.unwrap() {
        Action::SendPadding { timeout, limit, .. } => {
            assert_eq!(timeout.kind, DistKind::Uniform { low: 20_000 * SCALE, high: 20_000 * SCALE });
            assert_eq!(limit.unwrap().kind, DistKind::Uniform { low: 10 * SCALE, high: 10 * SCALE });
        }
        _ => panic!("expected padding"),
    }
}

#[test]
fn relay_errors() {
    let ok = vec![iv(50 * SCALE), iv(SCALE - 1)];
    assert_eq!(generate_relay_machine(SCALE, 0, &ok).unwrap_err(), SurgeError::ZeroThreshold);
    assert_eq!(generate_relay_machine(0, SCALE, &ok).unwrap_err(), SurgeError::ZeroPackets);
    assert_eq!(generate_relay_machine(SCALE, SCALE, &vec![]).unwrap_err(), SurgeError::UnfinishedSurge);
    let unfinished = vec![iv(50 * SCALE), iv(40 * SCALE)];
    assert_eq!(generate_relay_machine(SCALE, SCALE, &unfinished).unwrap_err(), SurgeError::UnfinishedSurge);
    let early = vec![iv(50 * SCALE), iv(0), iv(0)];
    assert_eq!(generate_relay_machine(SCALE, SCALE, &early).unwrap_err(), SurgeError::UnfinishedSurge);
    let start = vec![SurgeInterval { rate: 0, unbounded: true }];
    assert_eq!(generate_relay_machine(SCALE, SCALE, &start).unwrap_err(), SurgeError::ExhaustedAtStart);
    let mut long = vec![iv(50 * SCALE); MAX_STATES];
    long.push(iv(0));
    assert_eq!(generate_relay_machine(SCALE, SCALE, &long).unwrap_err(), SurgeError::TooManyStates);
    assert!(generate_relay_machine(SCALE, SCALE, &ok).is_ok());
}

#[test]
fn surge_partition_stops() {
    assert!(surge_continues(&vec![]));
    assert!(surge_continues(&vec![iv(3 * SCALE)]));
    assert!(!surge_continues(&vec![iv(3 * SCALE), iv(SCALE / 2)]));
    assert!(!surge_continues(&vec![SurgeInterval { rate: 9 * SCALE, unbounded: true }]));
    assert!(!surge_continues(&vec![iv(3 * SCALE); MAX_STATES - 11]));
}

#[test]
fn relay_single_states() {
    assert!(generate_relay_start_state().action.is_none());
    assert!(matches!(
        generate_relay_block_state().action,
        Some(Action::BlockOutgoing { limit: None, .. })
    ));
    let b = generate_relay_boot_state(4, 5, 7);
    assert_eq!(on(&b, Event::PaddingSent), vec![Trans { target: Target::State(4), prob: SCALE }]);
    let s = generate_relay_send_state(11, Target::State(12), 3, 4, 5);
    assert_eq!(on(&s, Event::NormalSent), vec![Trans { target: Target::State(10), prob: 5 }]);
    let s = generate_relay_send_state(10, Target::State(11), 3, 4, 5);
    assert!(on(&s, Event::NormalSent).is_empty());
    let s = generate_relay_send_state(12, Target::End, 3, 4, 5);
    assert_eq!(on(&s, Event::NormalSent), vec![Trans { target: Target::State(10), prob: 5 }]);
}
