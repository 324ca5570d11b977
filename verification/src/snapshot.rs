//! Snapshot serializer: the transmissible form of a store's contents.
//!
//! A `Snapshot` is a point-in-time projection of the store, one ordered list
//! per ring buffer, each entry carrying its taint beside the decoded or
//! diagnostic payload. It is produced by `SensorReadings::serialize` under
//! the same exclusive access as writers, so its lists are mutually
//! consistent — never a torn read across concurrently-evicting buffers.

use vstd::prelude::*;

use crate::frame::{FrameFault, RawFrame, Reading};

verus! {

/// A consistent point-in-time copy of every buffer, oldest entry first.
pub struct Snapshot<Taint> {
    pub valid: Vec<(Taint, Reading)>,
    pub sensor_errors: Vec<(Taint, u8)>,
    pub parse_errors: Vec<(Taint, FrameFault)>,
    pub audit: Vec<(Taint, RawFrame)>,
}

} // verus!
