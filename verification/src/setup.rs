//! Default store construction: the capacities and taint type used where the
//! embedding application supplies no others.

use vstd::prelude::*;

use crate::frame::{FrameFault, RawFrame, Reading};
use crate::store::SensorReadings;

verus! {

/// The taint attached by the default embedding: no provenance.
pub type ReadingTaint = ();

pub const VALID_RESPONSE_CAPACITY: usize = 32;

pub const SENSOR_ERROR_CAPACITY: usize = 32;

pub const PARSE_ERROR_CAPACITY: usize = 32;

pub const ERROR_RECORDING_CAPACITY: usize = 32;

/// A fresh, empty store with the default capacities.
pub fn setup_sensor_storage() -> (store: SensorReadings<
    ReadingTaint,
    VALID_RESPONSE_CAPACITY,
    SENSOR_ERROR_CAPACITY,
    PARSE_ERROR_CAPACITY,
    ERROR_RECORDING_CAPACITY,
>)
    ensures
        store.wf(),
        store@.valid == Seq::<(ReadingTaint, Reading)>::empty(),
        store@.sensor_errors == Seq::<(ReadingTaint, u8)>::empty(),
        store@.parse_errors == Seq::<(ReadingTaint, FrameFault)>::empty(),
        store@.audit == Seq::<(ReadingTaint, RawFrame)>::empty(),
        store@.last_accepted is None,
        store@.valid_cap == VALID_RESPONSE_CAPACITY as nat,
        store@.sensor_cap == SENSOR_ERROR_CAPACITY as nat,
        store@.parse_cap == PARSE_ERROR_CAPACITY as nat,
        store@.audit_cap == ERROR_RECORDING_CAPACITY as nat,
{
    SensorReadings::new()
}

} // verus!
