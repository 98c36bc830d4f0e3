//! An owned, serializable snapshot of a structured log record.
//!
//! A logging framework's in-flight record value carries a lazily formatted
//! message that cannot outlive the log call, so the record itself cannot be
//! stored or serialized. [`SerializableLogRecord`] mirrors such a record as
//! plain owned data: the severity as its canonical string label, the message
//! formatted out into a `String`, the target, and the optional module path,
//! file and line. A parser with a documented fallback maps the stored label
//! back to a [`Level`] when a record is rebuilt for a sink.

pub mod level;
pub mod record;

pub use level::Level;
pub use record::SerializableLogRecord;
