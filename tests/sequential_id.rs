use sandflake::{
    advance, decode_class, decode_node, decode_sequence, decode_timestamp, encode,
    millis_since_epoch, retry_action, ConfigError, GenerateError, MockClock, ObjectClass,
    RetryAction, Sandflake, TimestampGenerator, Transition, BASE_EPOCH_MS, MAX_NODE_ID,
    MAX_TIMESTAMP, WAIT_BUDGET_MS,
};

fn mock(readings: Vec<u64>) -> TimestampGenerator {
    TimestampGenerator::Mock(MockClock::new(readings))
}

fn repeated_then(value: u64, count: usize, last: u64) -> Vec<u64> {
    let mut readings = vec![value; count];
    readings.push(last);
    readings
}

#[test]
fn test_generate_id_is_ok() {
    let sandflake = Sandflake::new(5, TimestampGenerator::Default).unwrap();

    assert!(sandflake.generate_id().is_ok());
}

#[test]
fn test_generate_id_seq_4096() {
    let sandflake = Sandflake::new(
        1,
        mock(repeated_then(1_609_459_200_001, 4095, 1_609_459_200_002)),
    )
    .unwrap();

    for _ in 0..4096 {
        assert!(sandflake.generate_id().is_ok());
    }
}

#[test]
fn test_generate_id_seq_overflow() {
    let sandflake = Sandflake::new(
        1,
        mock(repeated_then(1_609_459_200_001, 4095, 1_609_459_200_002)),
    )
    .unwrap();
    let mut result: u64 = 0;
    for _ in 0..4096 {
        result = sandflake.generate_id().unwrap();
    }
    let seq = result
        & 0b0000_0000_0000_0000_0000_0000_0000_0000_0000_0000_0000_0000_1111_1111_1111;
    assert_eq!(seq, 0);
}

#[test]
fn test_generate_id_add_node_id() {
    // between 0 and 32;
    let node_ids: [u64; 5] = [0, 1, 10, 31, 32];

    for node_id in node_ids {
        let sandflake = Sandflake::default(node_id).unwrap();

        let id = sandflake.generate_id().unwrap();

        let mut actual =
            id & 0b0000_0000_0000_0000_0000_0000_0000_0000_0000_0000_0011_1111_0000_0000_0000;
        actual >>= 12;
        assert_eq!(node_id, actual);
    }
}

#[test]
#[should_panic(expected = "Node ID exceeds the range of 0 to 32, initialization aborted: 33")]
fn test_generate_id_should_error_node_id_overflow() {
    let node_id: u64 = 33;

    match Sandflake::default(node_id) {
        Ok(_) => {}
        Err(ConfigError::NodeIdOutOfRange { node_id }) => panic!(
            "Node ID exceeds the range of 0 to 32, initialization aborted: {}",
            node_id
        ),
    }
}

#[test]
fn node_identity_bounds() {
    assert!(Sandflake::default(MAX_NODE_ID).is_ok());
    assert_eq!(
        Sandflake::new(MAX_NODE_ID + 1, mock(vec![7])).err(),
        Some(ConfigError::NodeIdOutOfRange { node_id: 33 })
    );
    assert!(Sandflake::default(u64::MAX).is_err());
}

#[test]
fn every_id_carries_the_node_identity() {
    for node_id in 0..=MAX_NODE_ID {
        let sandflake = Sandflake::new(node_id, mock(vec![100, 100, 101])).unwrap();
        for _ in 0..3 {
            let id = sandflake.generate_id().unwrap();
            assert_eq!(decode_node(id), node_id);
            assert_eq!(decode_class(id), 0);
        }
    }
}

#[test]
fn one_tick_counts_sequence_up_from_zero() {
    let t: u64 = 1_609_459_200_001;
    let sandflake = Sandflake::new(3, mock(repeated_then(t, 4096, t + 1))).unwrap();
    for expected in 0..4096u64 {
        let id = sandflake.generate_id().unwrap();
        assert_eq!(decode_sequence(id), expected);
        assert_eq!(decode_timestamp(id), t);
        assert_eq!(decode_node(id), 3);
    }
    let id = sandflake.generate_id().unwrap();
    assert_eq!(decode_sequence(id), 0);
    assert_eq!(decode_timestamp(id), t + 1);
}

#[test]
fn saturated_tick_waits_for_the_next() {
    let t: u64 = 500;
    let sandflake = Sandflake::new(2, mock(repeated_then(t, 4097, t + 1))).unwrap();
    for _ in 0..4096 {
        assert!(sandflake.generate_id().is_ok());
    }
    let outcome = sandflake.generate_id();
    assert_eq!(outcome, Err(GenerateError::Saturated));
    assert_eq!(retry_action(outcome, 0), RetryAction::Wait);
    let id = sandflake.generate_id().unwrap();
    assert_eq!(decode_sequence(id), 0);
    assert_eq!(decode_timestamp(id), t + 1);
}

#[test]
fn object_ids_carry_their_class() {
    let classes = [
        (ObjectClass::Unknown, 0u64),
        (ObjectClass::Project, 1),
        (ObjectClass::Task, 2),
        (ObjectClass::User, 3),
        (ObjectClass::Comment, 4),
        (ObjectClass::Download, 5),
    ];
    for (class, code) in classes {
        assert_eq!(class.code(), code);
        let sandflake = Sandflake::new(9, mock(vec![42, 42])).unwrap();
        let plain = sandflake.generate_id().unwrap();
        let tagged = sandflake.generate_object_id(class).unwrap();
        assert_eq!(decode_class(tagged), code);
        assert_eq!(decode_class(plain), 0);
        assert_eq!(decode_timestamp(tagged), 42);
        assert_eq!(decode_node(tagged), 9);
        assert_eq!(decode_sequence(plain), 0);
        assert_eq!(decode_sequence(tagged), 1);
        assert_eq!(tagged, encode(42, 9, 1, code));
    }
}

#[test]
fn ids_from_one_generator_are_distinct() {
    let total: usize = 20_000;
    let sandflake = Sandflake::default(4).unwrap();
    let mut all: Vec<u64> = Vec::new();
    let mut requests: usize = 0;
    while all.len() < total {
        requests += 1;
        assert!(requests < 1_000_000_000);
        match sandflake.generate_id() {
            Ok(id) => all.push(id),
            Err(e) => assert_ne!(e, GenerateError::ClockFailure),
        }
    }
    let issued = all.clone();
    all.sort();
    all.dedup();
    assert_eq!(all.len(), total);
    assert_eq!(issued, all);
}

#[test]
fn encode_then_decode_round_trips() {
    let cases = [
        (0u64, 0u64, 0u64, 0u64),
        (MAX_TIMESTAMP, 63, 4095, 15),
        (1_609_459_200_001, 32, 17, 5),
        (123_456, 1, 4094, 3),
    ];
    for (t, n, s, c) in cases {
        let id = encode(t, n, s, c);
        assert_eq!(decode_timestamp(id), t);
        assert_eq!(decode_node(id), n);
        assert_eq!(decode_sequence(id), s);
        assert_eq!(decode_class(id), c);
    }
}

#[test]
fn encode_exact_value() {
    assert_eq!(encode(1, 1, 1, 1), (1u64 << 22) | (1 << 18) | (1 << 12) | 1);
    assert_eq!(encode(3, 2, 5, 4), 3 * 4_194_304 + 4 * 262_144 + 2 * 4096 + 5);
    assert_eq!(encode(MAX_TIMESTAMP, 63, 4095, 15), u64::MAX);
}

#[test]
fn clock_stepping_back_stays_in_the_recorded_tick() {
    let sandflake = Sandflake::new(1, mock(vec![10, 9, 11])).unwrap();
    let first = sandflake.generate_id().unwrap();
    let second = sandflake.generate_id().unwrap();
    let third = sandflake.generate_id().unwrap();
    assert_eq!((decode_timestamp(first), decode_sequence(first)), (10, 0));
    assert_eq!((decode_timestamp(second), decode_sequence(second)), (10, 1));
    assert_eq!((decode_timestamp(third), decode_sequence(third)), (11, 0));
}

#[test]
fn clock_failures_are_reported() {
    let empty = Sandflake::new(1, mock(Vec::new())).unwrap();
    assert_eq!(empty.generate_id(), Err(GenerateError::ClockFailure));
    assert_eq!(
        empty.generate_object_id(ObjectClass::Task),
        Err(GenerateError::ClockFailure)
    );
    let too_late = Sandflake::new(1, mock(vec![MAX_TIMESTAMP + 1])).unwrap();
    assert_eq!(too_late.generate_id(), Err(GenerateError::ClockFailure));
    let last = Sandflake::new(1, mock(vec![MAX_TIMESTAMP])).unwrap();
    assert_eq!(decode_timestamp(last.generate_id().unwrap()), MAX_TIMESTAMP);
}

#[test]
fn millis_since_epoch_values() {
    assert_eq!(millis_since_epoch(BASE_EPOCH_MS as u128), Some(0));
    assert_eq!(millis_since_epoch(1_609_459_200_123), Some(123));
    assert_eq!(millis_since_epoch(BASE_EPOCH_MS as u128 - 1), None);
    assert_eq!(millis_since_epoch(BASE_EPOCH_MS as u128 + u64::MAX as u128), Some(u64::MAX));
    assert_eq!(millis_since_epoch(BASE_EPOCH_MS as u128 + u64::MAX as u128 + 1), None);
}

#[test]
fn mock_clock_plays_back_then_repeats() {
    let clock = MockClock::new(vec![5, 6]);
    assert_eq!(clock.now_ms(), Some(5));
    assert_eq!(clock.now_ms(), Some(6));
    assert_eq!(clock.now_ms(), Some(6));
    assert_eq!(MockClock::new(Vec::new()).now_ms(), None);
}

#[test]
fn advance_transitions() {
    assert_eq!(
        advance(0, 5),
        Transition::Issue { next: 6 * 4096, tick: 5, sequence: 0 }
    );
    assert_eq!(
        advance(6 * 4096 + 7, 5),
        Transition::Issue { next: 6 * 4096 + 8, tick: 5, sequence: 8 }
    );
    assert_eq!(
        advance(6 * 4096 + 7, 6),
        Transition::Issue { next: 7 * 4096, tick: 6, sequence: 0 }
    );
    assert_eq!(advance(6 * 4096 + 4095, 5), Transition::Saturated);
    assert_eq!(advance(6 * 4096 + 4095, 3), Transition::Saturated);
}

#[test]
fn retry_policy() {
    assert_eq!(retry_action(Ok(77), 0), RetryAction::Return(77));
    assert_eq!(retry_action(Err(GenerateError::Contended), 3), RetryAction::Wait);
    assert_eq!(
        retry_action(Err(GenerateError::Saturated), WAIT_BUDGET_MS),
        RetryAction::GiveUp(GenerateError::Saturated)
    );
    assert_eq!(
        retry_action(Err(GenerateError::ClockFailure), 0),
        RetryAction::GiveUp(GenerateError::ClockFailure)
    );
}
