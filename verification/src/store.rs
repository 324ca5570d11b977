//! Bounded reading store: classification, deduplication, bounded history.
//!
//! The store owns four independent fixed-capacity ring buffers — accepted
//! readings, sensor-reported fault codes, malformed-frame diagnoses, and a
//! raw-event audit trail of every submitted frame — plus the last-accepted
//! slot used for deduplication. Submitting a frame classifies it, appends it
//! to the audit trail unconditionally, and then appends to exactly one
//! classification-specific buffer, except that a reading equal to the most
//! recently accepted one is suppressed and stored nowhere but the audit
//! trail.
//!
//! `spec_record` is the mathematical model of one submission; everything
//! `record_reading` does is pinned to it.

use vstd::prelude::*;

use crate::frame::{classify, spec_classify, ClassifiedEvent, FrameFault, RawFrame, Reading};
use crate::ring::{ring_push, RingBuffer};
use crate::snapshot::Snapshot;

verus! {

/// The detail carried by a `ParseError` outcome: either the fault code the
/// sensor itself reported, or the reason the frame was malformed.
#[derive(Clone, Copy, Debug, PartialEq, Eq, Structural)]
pub enum FrameIssue {
    SensorFault(u8),
    Malformed(FrameFault),
}

/// The caller-visible result of submitting one frame: a reading distinct
/// from the previous accepted one, a suppressed duplicate, or a recorded
/// diagnostic.
#[derive(Clone, Copy, Debug, PartialEq, Eq, Structural)]
pub enum RecordStatus {
    NewReading(Reading),
    NoNewReading,
    ParseError(FrameIssue),
}

/// The mathematical state of a store: the contents of the four buffers in
/// insertion order, the last-accepted slot, and the four capacities.
#[verifier::ext_equal]
pub struct StoreView<Taint> {
    pub valid: Seq<(Taint, Reading)>,
    pub sensor_errors: Seq<(Taint, u8)>,
    pub parse_errors: Seq<(Taint, FrameFault)>,
    pub audit: Seq<(Taint, RawFrame)>,
    pub last_accepted: Option<Reading>,
    pub valid_cap: nat,
    pub sensor_cap: nat,
    pub parse_cap: nat,
    pub audit_cap: nat,
}

impl<Taint> StoreView<Taint> {
    /// Store invariant: no buffer exceeds its capacity, there is room for at
    /// least one accepted reading, and the last-accepted slot mirrors the
    /// newest entry of the accepted-readings buffer (empty iff that buffer
    /// is empty).
    pub open spec fn wf(self) -> bool {
        &&& self.valid.len() <= self.valid_cap
        &&& self.sensor_errors.len() <= self.sensor_cap
        &&& self.parse_errors.len() <= self.parse_cap
        &&& self.audit.len() <= self.audit_cap
        &&& self.valid_cap >= 1
        &&& (self.valid.len() == 0 <==> self.last_accepted is None)
        &&& (self.valid.len() > 0 ==> self.last_accepted == Some(self.valid.last().1))
    }
}

/// What submitting one frame does to a store: the audit trail always gains
/// the raw event; the classification outcome decides the status and which
/// single further buffer gains an entry. A reading equal to the
/// last-accepted one updates nothing but the audit trail.
pub open spec fn spec_record<Taint>(v: StoreView<Taint>, taint: Taint, frame: RawFrame) -> (
    StoreView<Taint>,
    RecordStatus,
) {
    let audited = (StoreView { audit: ring_push(v.audit, (taint, frame), v.audit_cap), ..v });
    match spec_classify(frame@) {
        ClassifiedEvent::Accepted(r) => {
            if v.last_accepted == Some(r) {
                (audited, RecordStatus::NoNewReading)
            } else {
                (
                    (StoreView {
                        valid: ring_push(v.valid, (taint, r), v.valid_cap),
                        last_accepted: Some(r),
                        ..audited
                    }),
                    RecordStatus::NewReading(r),
                )
            }
        },
        ClassifiedEvent::SensorError(code) => (
            (StoreView {
                sensor_errors: ring_push(v.sensor_errors, (taint, code), v.sensor_cap),
                ..audited
            }),
            RecordStatus::ParseError(FrameIssue::SensorFault(code)),
        ),
        ClassifiedEvent::MalformedFrame(fault) => (
            (StoreView {
                parse_errors: ring_push(v.parse_errors, (taint, fault), v.parse_cap),
                ..audited
            }),
            RecordStatus::ParseError(FrameIssue::Malformed(fault)),
        ),
    }
}

/// Bounded sensor-reading store: four independently-capacitied ring buffers
/// and the last-accepted slot. Constructed once with fixed capacities; never
/// resized. The taint is caller-supplied provenance, stored opaquely.
pub struct SensorReadings<
    Taint,
    const VALID_CAP: usize,
    const SENSOR_CAP: usize,
    const PARSE_CAP: usize,
    const AUDIT_CAP: usize,
> {
    valid: RingBuffer<(Taint, Reading), VALID_CAP>,
    sensor_errors: RingBuffer<(Taint, u8), SENSOR_CAP>,
    parse_errors: RingBuffer<(Taint, FrameFault), PARSE_CAP>,
    audit: RingBuffer<(Taint, RawFrame), AUDIT_CAP>,
    last_accepted: Option<Reading>,
}

impl<
    Taint,
    const VALID_CAP: usize,
    const SENSOR_CAP: usize,
    const PARSE_CAP: usize,
    const AUDIT_CAP: usize,
> View for SensorReadings<Taint, VALID_CAP, SENSOR_CAP, PARSE_CAP, AUDIT_CAP> {
    type V = StoreView<Taint>;

    closed spec fn view(&self) -> StoreView<Taint> {
        StoreView {
            valid: self.valid@,
            sensor_errors: self.sensor_errors@,
            parse_errors: self.parse_errors@,
            audit: self.audit@,
            last_accepted: self.last_accepted,
            valid_cap: VALID_CAP as nat,
            sensor_cap: SENSOR_CAP as nat,
            parse_cap: PARSE_CAP as nat,
            audit_cap: AUDIT_CAP as nat,
        }
    }
}

impl<
    Taint,
    const VALID_CAP: usize,
    const SENSOR_CAP: usize,
    const PARSE_CAP: usize,
    const AUDIT_CAP: usize,
> SensorReadings<Taint, VALID_CAP, SENSOR_CAP, PARSE_CAP, AUDIT_CAP> {
    /// The store invariant: the view invariant plus the ring buffers'
    /// internal representation invariants.
    pub open spec fn wf(&self) -> bool {
        self@.wf() && self.buffers_wf()
    }

    /// The four ring buffers' representation invariants (arena and head
    /// index consistent); established by construction and preserved by
    /// every operation.
    pub closed spec fn buffers_wf(&self) -> bool {
        &&& self.valid.wf()
        &&& self.sensor_errors.wf()
        &&& self.parse_errors.wf()
        &&& self.audit.wf()
    }

    /// An empty store with the capacities fixed by the type. The
    /// accepted-readings buffer must have room for at least one entry, else
    /// the last-accepted slot could not mirror it.
    pub fn new() -> (store: Self)
        requires
            VALID_CAP >= 1,
        ensures
            store.wf(),
            store@.valid == Seq::<(Taint, Reading)>::empty(),
            store@.sensor_errors == Seq::<(Taint, u8)>::empty(),
            store@.parse_errors == Seq::<(Taint, FrameFault)>::empty(),
            store@.audit == Seq::<(Taint, RawFrame)>::empty(),
            store@.last_accepted is None,
            store@.valid_cap == VALID_CAP as nat,
            store@.sensor_cap == SENSOR_CAP as nat,
            store@.parse_cap == PARSE_CAP as nat,
            store@.audit_cap == AUDIT_CAP as nat,
    {
        SensorReadings {
            valid: RingBuffer::new(),
            sensor_errors: RingBuffer::new(),
            parse_errors: RingBuffer::new(),
            audit: RingBuffer::new(),
            last_accepted: None,
        }
    }
}

impl<
    Taint: Copy,
    const VALID_CAP: usize,
    const SENSOR_CAP: usize,
    const PARSE_CAP: usize,
    const AUDIT_CAP: usize,
> SensorReadings<Taint, VALID_CAP, SENSOR_CAP, PARSE_CAP, AUDIT_CAP> {
    /// Submits one frame: classifies it, audits the raw event, applies the
    /// eviction and deduplication policy, and reports the outcome. Never
    /// fails and never aborts; a full buffer silently evicts its oldest
    /// entry.
    pub fn record_reading(&mut self, taint: Taint, frame: &RawFrame) -> (status: RecordStatus)
        requires
            old(self).wf(),
        ensures
            final(self).wf(),
            final(self)@ == spec_record(old(self)@, taint, *frame).0,
            status == spec_record(old(self)@, taint, *frame).1,
    {
        let event = classify(frame);
        self.audit.push((taint, *frame));
        match event {
            ClassifiedEvent::Accepted(reading) => {
                let duplicate = match self.last_accepted {
                    Some(prev) => prev == reading,
                    None => false,
                };
                if duplicate {
                    proof {
                        assert(self@ =~= spec_record(old(self)@, taint, *frame).0);
                    }
                    RecordStatus::NoNewReading
                } else {
                    self.valid.push((taint, reading));
                    self.last_accepted = Some(reading);
                    proof {
                        assert(self@ =~= spec_record(old(self)@, taint, *frame).0);
                    }
                    RecordStatus::NewReading(reading)
                }
            },
            ClassifiedEvent::SensorError(code) => {
                self.sensor_errors.push((taint, code));
                proof {
                    assert(self@ =~= spec_record(old(self)@, taint, *frame).0);
                }
                RecordStatus::ParseError(FrameIssue::SensorFault(code))
            },
            ClassifiedEvent::MalformedFrame(fault) => {
                self.parse_errors.push((taint, fault));
                proof {
                    assert(self@ =~= spec_record(old(self)@, taint, *frame).0);
                }
                RecordStatus::ParseError(FrameIssue::Malformed(fault))
            },
        }
    }

    /// Read-only projection of the current contents into a transmissible
    /// form: per buffer, its entries in insertion order with their taints.
    /// Takes the store by shared reference, so it mutates nothing; it never
    /// fails, and each list mirrors its buffer exactly, even when no valid
    /// reading has ever arrived.
    pub fn serialize(&self) -> (snap: Snapshot<Taint>)
        requires
            self.wf(),
        ensures
            snap.valid@ == self@.valid,
            snap.sensor_errors@ == self@.sensor_errors,
            snap.parse_errors@ == self@.parse_errors,
            snap.audit@ == self@.audit,
    {
        Snapshot {
            valid: self.valid.to_vec(),
            sensor_errors: self.sensor_errors.to_vec(),
            parse_errors: self.parse_errors.to_vec(),
            audit: self.audit.to_vec(),
        }
    }
}

} // verus!
