//! A bounded, append-only audit log for randomly generated numbers.
//!
//! The library records every generated value together with a strictly
//! increasing sequence identifier, keeps at most a fixed number of entries by
//! evicting the oldest ones, and offers an integrity check that reports gaps
//! in the recorded sequence identifiers.

pub mod audit_log;
pub mod counter;
pub mod encoding;
pub mod entry;
pub mod integrity;
pub mod service;
pub mod text;

pub use audit_log::AuditLog;
pub use audit_log::MAX_ENTRIES;
pub use counter::Counter;
pub use entry::CallContext;
pub use entry::RandomNumberEntry;
pub use integrity::SequenceIntegrityStatus;
pub use service::GenerationError;
pub use service::RandomNumberService;
pub use text::greet;
