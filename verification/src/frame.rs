//! Frame classifier: a pure, deterministic function from one raw serial
//! frame to a typed outcome.
//!
//! A frame is exactly seven bytes:
//!
//! | byte | meaning                                   |
//! |------|-------------------------------------------|
//! | 0    | header marker, always `HEADER_MARKER`     |
//! | 1    | sensor status, `STATUS_OK` or fault code  |
//! | 2, 3 | reading value, big-endian                 |
//! | 4, 5 | reserved (covered by the checksum)        |
//! | 6    | checksum: sum of bytes 1..=5 modulo 256   |
//!
//! A wrong header marker or a wrong checksum makes the frame malformed; a
//! non-zero status byte under a valid checksum is a fault the sensor itself
//! reported; otherwise bytes 2 and 3 decode to the reading.

use vstd::prelude::*;

verus! {

/// One raw frame as captured from the serial link in a single read.
pub type RawFrame = [u8; 7];

/// The header marker every well-formed frame starts with.
pub const HEADER_MARKER: u8 = 0xff;

/// The status byte value of a healthy sensor; anything else is a fault code.
pub const STATUS_OK: u8 = 0;

/// The decoded physical quantity extracted from a valid frame.
#[derive(Clone, Copy, Debug, PartialEq, Eq, Structural)]
pub struct Reading {
    pub value: u16,
}

/// Why a frame was rejected as malformed.
#[derive(Clone, Copy, Debug, PartialEq, Eq, Structural)]
pub enum FrameFault {
    HeaderMismatch,
    ChecksumMismatch,
}

/// The three-way outcome of classifying one frame; exactly one variant per
/// classification.
#[derive(Clone, Copy, Debug, PartialEq, Eq, Structural)]
pub enum ClassifiedEvent {
    Accepted(Reading),
    SensorError(u8),
    MalformedFrame(FrameFault),
}

/// The checksum a well-formed frame must carry in its last byte: the sum of
/// the five payload bytes, modulo 256.
pub open spec fn checksum_of(s: Seq<u8>) -> u8
    recommends
        s.len() == 7,
{
    (((s[1] as int) + (s[2] as int) + (s[3] as int) + (s[4] as int) + (s[5] as int)) % 256) as u8
}

/// The reading a valid frame decodes to: bytes 2 and 3, big-endian.
pub open spec fn reading_of(s: Seq<u8>) -> Reading
    recommends
        s.len() == 7,
{
    Reading { value: ((s[2] as int) * 256 + (s[3] as int)) as u16 }
}

/// The classification outcome of one frame: header checked first, then the
/// checksum, then the sensor's own status field, and only then the decode.
pub open spec fn spec_classify(s: Seq<u8>) -> ClassifiedEvent
    recommends
        s.len() == 7,
{
    if s[0] != HEADER_MARKER {
        ClassifiedEvent::MalformedFrame(FrameFault::HeaderMismatch)
    } else if s[6] != checksum_of(s) {
        ClassifiedEvent::MalformedFrame(FrameFault::ChecksumMismatch)
    } else if s[1] != STATUS_OK {
        ClassifiedEvent::SensorError(s[1])
    } else {
        ClassifiedEvent::Accepted(reading_of(s))
    }
}

/// Computes the checksum a frame's payload calls for.
pub fn checksum(frame: &RawFrame) -> (c: u8)
    ensures
        c == checksum_of(frame@),
{
    let sum: u32 = frame[1] as u32 + frame[2] as u32 + frame[3] as u32 + frame[4] as u32
        + frame[5] as u32;
    (sum % 256) as u8
}

/// Classifies one raw frame. Pure and side-effect-free: the outcome depends
/// on the frame bytes alone.
pub fn classify(frame: &RawFrame) -> (event: ClassifiedEvent)
    ensures
        event == spec_classify(frame@),
{
    if frame[0] != HEADER_MARKER {
        ClassifiedEvent::MalformedFrame(FrameFault::HeaderMismatch)
    } else if frame[6] != checksum(frame) {
        ClassifiedEvent::MalformedFrame(FrameFault::ChecksumMismatch)
    } else if frame[1] != STATUS_OK {
        ClassifiedEvent::SensorError(frame[1])
    } else {
        let value: u16 = (frame[2] as u16) * 256 + (frame[3] as u16);
        ClassifiedEvent::Accepted(Reading { value })
    }
}

} // verus!
