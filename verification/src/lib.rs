//! Batch media organizer core: creation-timestamp resolution, deterministic
//! destination-path derivation, per-file action outcome tracking, and
//! result aggregation.

pub mod batch;
pub mod entry;
pub mod resolve;
pub mod summary;
pub mod template;
pub mod timestamp;

pub use timestamp::Timestamp;
