use sensor_storage::{
    setup_sensor_storage, FrameFault, FrameIssue, Reading, RecordStatus, SensorReadings,
};

/// A frame with the given status and reading bytes and a correct checksum.
fn good_frame(status: u8, hi: u8, lo: u8) -> [u8; 7] {
    let checksum = status.wrapping_add(hi).wrapping_add(lo);
    [0xff, status, hi, lo, 0, 0, checksum]
}

/// A valid frame decoding to the given reading value.
fn reading_frame(value: u16) -> [u8; 7] {
    good_frame(0, (value >> 8) as u8, (value & 0xff) as u8)
}

#[test]
fn first_accepted_frame_is_always_new() {
    let mut store: SensorReadings<i64, 4, 4, 4, 8> = SensorReadings::new();
    let status = store.record_reading(1, &reading_frame(100));
    assert_eq!(status, RecordStatus::NewReading(Reading { value: 100 }));
    let snap = store.serialize();
    assert_eq!(snap.valid, vec![(1, Reading { value: 100 })]);
}

#[test]
fn eviction_keeps_newest_two_of_three() {
    // Capacity 2 for accepted readings: submit A, B, C in order; the buffer
    // ends as [B, C] with the oldest (A) evicted.
    let mut store: SensorReadings<i64, 2, 4, 4, 8> = SensorReadings::new();
    store.record_reading(1, &reading_frame(10));
    store.record_reading(2, &reading_frame(20));
    store.record_reading(3, &reading_frame(30));
    let snap = store.serialize();
    assert_eq!(
        snap.valid,
        vec![(2, Reading { value: 20 }), (3, Reading { value: 30 })]
    );
}

#[test]
fn flipped_checksum_is_a_parse_error_and_valid_unchanged() {
    let mut store: SensorReadings<i64, 4, 4, 4, 8> = SensorReadings::new();
    store.record_reading(1, &reading_frame(100));
    let mut corrupt = reading_frame(200);
    corrupt[6] ^= 0x01;
    let status = store.record_reading(2, &corrupt);
    assert_eq!(
        status,
        RecordStatus::ParseError(FrameIssue::Malformed(FrameFault::ChecksumMismatch))
    );
    let snap = store.serialize();
    assert_eq!(snap.parse_errors, vec![(2, FrameFault::ChecksumMismatch)]);
    assert_eq!(snap.valid, vec![(1, Reading { value: 100 })]);
}

#[test]
fn duplicate_readings_are_suppressed() {
    // Submit A, A, B with A and B distinct: statuses are NewReading(A),
    // NoNewReading, NewReading(B), and the buffer ends as [A, B].
    let mut store: SensorReadings<i64, 4, 4, 4, 8> = SensorReadings::new();
    let a = reading_frame(10);
    let b = reading_frame(20);
    assert_eq!(
        store.record_reading(1, &a),
        RecordStatus::NewReading(Reading { value: 10 })
    );
    assert_eq!(store.record_reading(2, &a), RecordStatus::NoNewReading);
    assert_eq!(
        store.record_reading(3, &b),
        RecordStatus::NewReading(Reading { value: 20 })
    );
    let snap = store.serialize();
    assert_eq!(
        snap.valid,
        vec![(1, Reading { value: 10 }), (3, Reading { value: 20 })]
    );
}

#[test]
fn replaying_a_reading_appends_exactly_once() {
    let mut store: SensorReadings<i64, 8, 4, 4, 64> = SensorReadings::new();
    let frame = reading_frame(42);
    assert_eq!(
        store.record_reading(0, &frame),
        RecordStatus::NewReading(Reading { value: 42 })
    );
    for taint in 1..10 {
        assert_eq!(store.record_reading(taint, &frame), RecordStatus::NoNewReading);
    }
    let snap = store.serialize();
    assert_eq!(snap.valid, vec![(0, Reading { value: 42 })]);
    assert_eq!(snap.audit.len(), 10);
}

#[test]
fn a_reading_may_recur_after_an_intervening_one() {
    let mut store: SensorReadings<i64, 4, 4, 4, 8> = SensorReadings::new();
    store.record_reading(1, &reading_frame(10));
    store.record_reading(2, &reading_frame(20));
    let status = store.record_reading(3, &reading_frame(10));
    assert_eq!(status, RecordStatus::NewReading(Reading { value: 10 }));
    let snap = store.serialize();
    assert_eq!(snap.valid.len(), 3);
}

#[test]
fn sensor_fault_is_recorded_apart_from_parse_errors() {
    let mut store: SensorReadings<i64, 4, 4, 4, 8> = SensorReadings::new();
    let status = store.record_reading(1, &good_frame(7, 0, 0));
    assert_eq!(status, RecordStatus::ParseError(FrameIssue::SensorFault(7)));
    let snap = store.serialize();
    assert_eq!(snap.sensor_errors, vec![(1, 7u8)]);
    assert!(snap.parse_errors.is_empty());
    assert!(snap.valid.is_empty());
}

#[test]
fn audit_trail_holds_every_submission_in_order() {
    let mut store: SensorReadings<i64, 4, 4, 4, 8> = SensorReadings::new();
    let frames = [
        reading_frame(10),
        good_frame(7, 0, 0),
        [0u8; 7],
        reading_frame(10),
        reading_frame(20),
    ];
    for (i, frame) in frames.iter().enumerate() {
        store.record_reading(i as i64, frame);
    }
    let snap = store.serialize();
    assert_eq!(snap.audit.len(), 5);
    for (i, frame) in frames.iter().enumerate() {
        assert_eq!(snap.audit[i], (i as i64, *frame));
    }
}

#[test]
fn serialize_is_complete_on_an_empty_store() {
    let store: SensorReadings<i64, 4, 4, 4, 8> = SensorReadings::new();
    let snap = store.serialize();
    assert!(snap.valid.is_empty());
    assert!(snap.sensor_errors.is_empty());
    assert!(snap.parse_errors.is_empty());
    assert!(snap.audit.is_empty());
}

#[test]
fn no_buffer_ever_exceeds_its_capacity() {
    let mut store: SensorReadings<i64, 3, 2, 2, 5> = SensorReadings::new();
    for i in 0..1000u16 {
        let frame = match i % 4 {
            0 | 1 => reading_frame(i),
            2 => good_frame((i % 200) as u8 + 1, 0, 0),
            _ => [0u8; 7],
        };
        store.record_reading(i as i64, &frame);
        let snap = store.serialize();
        assert!(snap.valid.len() <= 3);
        assert!(snap.sensor_errors.len() <= 2);
        assert!(snap.parse_errors.len() <= 2);
        assert!(snap.audit.len() <= 5);
    }
    let snap = store.serialize();
    assert_eq!(snap.audit.len(), 5);
    for (i, entry) in snap.audit.iter().enumerate() {
        assert_eq!(entry.0, 995 + i as i64);
    }
}

#[test]
fn setup_sensor_storage_yields_a_working_store() {
    let mut store = setup_sensor_storage();
    let status = store.record_reading((), &reading_frame(3));
    assert_eq!(status, RecordStatus::NewReading(Reading { value: 3 }));
    let snap = store.serialize();
    assert_eq!(snap.valid, vec![((), Reading { value: 3 })]);
    assert_eq!(snap.audit.len(), 1);
}
