//! Bounded sensor-reading store and frame classifier.
//!
//! A fixed-size raw frame arriving from a serial sensor link is classified
//! into a typed outcome (valid reading, sensor-reported error, malformed
//! frame), deduplicated against the most recently accepted reading, and
//! retained in fixed-capacity ring buffers for later retrieval. All state is
//! volatile and capacity-bounded: inserting beyond a buffer's capacity
//! evicts the oldest entry.

pub mod frame;
pub mod laws;
pub mod ring;
pub mod setup;
pub mod snapshot;
pub mod store;

pub use frame::{classify, ClassifiedEvent, FrameFault, RawFrame, Reading};
pub use ring::RingBuffer;
pub use setup::{setup_sensor_storage, ReadingTaint};
pub use snapshot::Snapshot;
pub use store::{FrameIssue, RecordStatus, SensorReadings};
