//! The store's laws: what holds of every run, proved over the spec-level
//! transition `spec_record` that `record_reading` is pinned to.

use vstd::prelude::*;

use crate::frame::{checksum_of, spec_classify, ClassifiedEvent, RawFrame, Reading};
use crate::ring::ring_push;
use crate::store::{spec_record, RecordStatus, StoreView};

verus! {

/// The contents of a ring buffer after pushing every element of `xs` in
/// order, starting from contents `s0`.
pub open spec fn ring_fold<T>(s0: Seq<T>, xs: Seq<T>, cap: nat) -> Seq<T>
    decreases xs.len(),
{
    if xs.len() == 0 {
        s0
    } else {
        ring_fold(ring_push(s0, xs[0], cap), xs.skip(1), cap)
    }
}

/// FIFO eviction law: however many entries are pushed, a ring buffer never
/// exceeds its capacity, and what it holds is exactly the newest entries of
/// the whole insertion history, in order — precisely the oldest entries are
/// absent, in age order.
pub proof fn lemma_ring_fifo<T>(s0: Seq<T>, xs: Seq<T>, cap: nat)
    requires
        s0.len() <= cap,
    ensures
        ring_fold(s0, xs, cap).len() <= cap,
        s0.len() + xs.len() <= cap ==> ring_fold(s0, xs, cap) == s0 + xs,
        s0.len() + xs.len() > cap ==> ring_fold(s0, xs, cap) == (s0 + xs).skip(
            s0.len() + xs.len() - cap,
        ),
    decreases xs.len(),
{
    if xs.len() == 0 {
        assert(s0 + xs =~= s0);
    } else {
        let s1 = ring_push(s0, xs[0], cap);
        lemma_ring_fifo(s1, xs.skip(1), cap);
        if s0.len() < cap {
            assert(s1 + xs.skip(1) =~= s0 + xs);
        } else {
            assert(s1 + xs.skip(1) =~= (s0 + xs).skip(1));
        }
        if s1.len() + xs.skip(1).len() > cap {
            assert((s1 + xs.skip(1)).skip(s1.len() + xs.skip(1).len() - cap) =~= (s0 + xs).skip(
                s0.len() + xs.len() - cap,
            ));
        }
    }
}

/// A frame whose checksum byte disagrees with its payload is never
/// accepted: the outcome is a parse error, and neither the
/// accepted-readings buffer nor the last-accepted slot moves.
pub proof fn lemma_corrupt_checksum_never_accepted<Taint>(
    v: StoreView<Taint>,
    taint: Taint,
    frame: RawFrame,
)
    requires
        frame@[6] != checksum_of(frame@),
    ensures
        spec_record(v, taint, frame).1 is ParseError,
        spec_record(v, taint, frame).0.valid == v.valid,
        spec_record(v, taint, frame).0.last_accepted == v.last_accepted,
        spec_record(v, taint, frame).0.sensor_errors == v.sensor_errors,
{
}

/// Two immediately consecutive accepted frames decoding to the same reading
/// yield `NewReading` then `NoNewReading`, and the accepted-readings buffer
/// gains the reading exactly once, not twice.
pub proof fn lemma_consecutive_duplicate_suppressed<Taint>(
    v: StoreView<Taint>,
    t1: Taint,
    t2: Taint,
    f1: RawFrame,
    f2: RawFrame,
    r: Reading,
)
    requires
        spec_classify(f1@) == ClassifiedEvent::Accepted(r),
        spec_classify(f2@) == ClassifiedEvent::Accepted(r),
        v.last_accepted != Some(r),
    ensures
        spec_record(v, t1, f1).1 == RecordStatus::NewReading(r),
        spec_record(spec_record(v, t1, f1).0, t2, f2).1 == RecordStatus::NoNewReading,
        spec_record(v, t1, f1).0.valid == ring_push(v.valid, (t1, r), v.valid_cap),
        spec_record(spec_record(v, t1, f1).0, t2, f2).0.valid == spec_record(v, t1, f1).0.valid,
        spec_record(spec_record(v, t1, f1).0, t2, f2).0.valid.len() <= v.valid.len() + 1,
{
}

/// The state after replaying the same frame once per taint in `taints`.
pub open spec fn spec_replay<Taint>(
    v: StoreView<Taint>,
    taints: Seq<Taint>,
    frame: RawFrame,
) -> StoreView<Taint>
    decreases taints.len(),
{
    if taints.len() == 0 {
        v
    } else {
        spec_replay(spec_record(v, taints[0], frame).0, taints.skip(1), frame)
    }
}

/// Replaying a frame whose reading already sits in the last-accepted slot
/// changes neither the accepted-readings buffer nor the slot, however often
/// it is replayed.
pub proof fn lemma_replay_duplicate<Taint>(
    v: StoreView<Taint>,
    taints: Seq<Taint>,
    frame: RawFrame,
    r: Reading,
)
    requires
        spec_classify(frame@) == ClassifiedEvent::Accepted(r),
        v.last_accepted == Some(r),
    ensures
        spec_replay(v, taints, frame).valid == v.valid,
        spec_replay(v, taints, frame).last_accepted == Some(r),
    decreases taints.len(),
{
    if taints.len() > 0 {
        lemma_replay_duplicate(spec_record(v, taints[0], frame).0, taints.skip(1), frame, r);
    }
}

/// Idempotence of deduplication: replaying an accepted frame any number of
/// times in a row, whatever the taints, appends its reading to the
/// accepted-readings buffer exactly once.
pub proof fn lemma_dedup_idempotent<Taint>(
    v: StoreView<Taint>,
    taints: Seq<Taint>,
    frame: RawFrame,
    r: Reading,
)
    requires
        taints.len() >= 1,
        spec_classify(frame@) == ClassifiedEvent::Accepted(r),
        v.last_accepted != Some(r),
    ensures
        spec_replay(v, taints, frame).valid == ring_push(v.valid, (taints[0], r), v.valid_cap),
        spec_replay(v, taints, frame).last_accepted == Some(r),
{
    let v1 = spec_record(v, taints[0], frame).0;
    lemma_replay_duplicate(v1, taints.skip(1), frame, r);
}

/// The state after submitting a sequence of raw events, oldest first.
pub open spec fn spec_run<Taint>(
    v: StoreView<Taint>,
    events: Seq<(Taint, RawFrame)>,
) -> StoreView<Taint>
    decreases events.len(),
{
    if events.len() == 0 {
        v
    } else {
        spec_run(spec_record(v, events[0].0, events[0].1).0, events.skip(1))
    }
}

/// Whatever each frame classifies to, a run drives the audit trail exactly
/// as pushing the raw events into its ring, and never changes its capacity.
pub proof fn lemma_run_audit<Taint>(v: StoreView<Taint>, events: Seq<(Taint, RawFrame)>)
    ensures
        spec_run(v, events).audit == ring_fold(v.audit, events, v.audit_cap),
        spec_run(v, events).audit_cap == v.audit_cap,
    decreases events.len(),
{
    if events.len() > 0 {
        let v1 = spec_record(v, events[0].0, events[0].1).0;
        assert(v1.audit == ring_push(v.audit, events[0], v.audit_cap));
        lemma_run_audit(v1, events.skip(1));
    }
}

/// Audit-trail cardinality: submitting K frames to a store whose audit
/// trail is empty, K at most its capacity, leaves exactly those K raw
/// events, in submission order.
pub proof fn lemma_audit_cardinality<Taint>(v: StoreView<Taint>, events: Seq<(Taint, RawFrame)>)
    requires
        v.audit.len() == 0,
        events.len() <= v.audit_cap,
    ensures
        spec_run(v, events).audit == events,
{
    lemma_run_audit(v, events);
    lemma_ring_fifo(v.audit, events, v.audit_cap);
    assert(v.audit + events =~= events);
}

/// One submission preserves the store invariant.
pub proof fn lemma_record_preserves_wf<Taint>(v: StoreView<Taint>, taint: Taint, frame: RawFrame)
    requires
        v.wf(),
    ensures
        spec_record(v, taint, frame).0.wf(),
{
}

/// Every run from a well-formed store stays well-formed: in particular, no
/// ring buffer ever exceeds its fixed capacity, whatever the frames.
pub proof fn lemma_run_preserves_wf<Taint>(v: StoreView<Taint>, events: Seq<(Taint, RawFrame)>)
    requires
        v.wf(),
    ensures
        spec_run(v, events).wf(),
    decreases events.len(),
{
    if events.len() > 0 {
        let v1 = spec_record(v, events[0].0, events[0].1).0;
        lemma_record_preserves_wf(v, events[0].0, events[0].1);
        lemma_run_preserves_wf(v1, events.skip(1));
    }
}

} // verus!
