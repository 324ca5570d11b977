use sensor_storage::{classify, ClassifiedEvent, FrameFault, Reading};

/// A frame with the given status and reading bytes and a correct checksum.
fn good_frame(status: u8, hi: u8, lo: u8) -> [u8; 7] {
    let checksum = status.wrapping_add(hi).wrapping_add(lo);
    [0xff, status, hi, lo, 0, 0, checksum]
}

#[test]
fn classify_accepts_valid_frame() {
    let frame = good_frame(0, 1, 2);
    assert_eq!(
        classify(&frame),
        ClassifiedEvent::Accepted(Reading { value: 258 })
    );
}

#[test]
fn classify_decodes_big_endian_value() {
    let frame = good_frame(0, 0x12, 0x34);
    assert_eq!(
        classify(&frame),
        ClassifiedEvent::Accepted(Reading { value: 0x1234 })
    );
}

#[test]
fn classify_rejects_wrong_header() {
    let mut frame = good_frame(0, 1, 2);
    frame[0] = 0x42;
    assert_eq!(
        classify(&frame),
        ClassifiedEvent::MalformedFrame(FrameFault::HeaderMismatch)
    );
}

#[test]
fn classify_rejects_flipped_checksum_bit() {
    let mut frame = good_frame(0, 1, 2);
    frame[6] ^= 0x01;
    assert_eq!(
        classify(&frame),
        ClassifiedEvent::MalformedFrame(FrameFault::ChecksumMismatch)
    );
}

#[test]
fn classify_reports_sensor_fault_code() {
    let frame = good_frame(9, 1, 2);
    assert_eq!(classify(&frame), ClassifiedEvent::SensorError(9));
}

#[test]
fn classify_checksum_covers_reserved_bytes() {
    let mut frame = good_frame(0, 1, 2);
    frame[4] = 1;
    assert_eq!(
        classify(&frame),
        ClassifiedEvent::MalformedFrame(FrameFault::ChecksumMismatch)
    );
    frame[6] = frame[6].wrapping_add(1);
    assert_eq!(
        classify(&frame),
        ClassifiedEvent::Accepted(Reading { value: 258 })
    );
}

#[test]
fn classify_header_outranks_checksum() {
    let mut frame = good_frame(0, 1, 2);
    frame[0] = 0x00;
    frame[6] ^= 0x80;
    assert_eq!(
        classify(&frame),
        ClassifiedEvent::MalformedFrame(FrameFault::HeaderMismatch)
    );
}

#[test]
fn classify_checksum_outranks_sensor_fault() {
    let mut frame = good_frame(9, 1, 2);
    frame[6] ^= 0x01;
    assert_eq!(
        classify(&frame),
        ClassifiedEvent::MalformedFrame(FrameFault::ChecksumMismatch)
    );
}
