//! Structured logging: log records with a canonical bracketed line format,
//! and the pure routing rules of the append-only file sink.
//!
//! A record is built from plain field values, rendered by `as_log_str` into a
//! single line whose exact shape is stated in each record's `spec_log_line`,
//! and routed by its distinction tag to one flat file per tag. The file I/O
//! itself lives outside the library; the path resolution, the line format and
//! the append model are specified and proved here.

pub mod digits;
pub mod records;
pub mod sink;
pub mod tags;
pub mod timestamp;

pub use crate::digits::u64_to_dec_string;
pub use crate::records::DBRequestLog;
pub use crate::records::DBResponseLog;
pub use crate::records::HTTPRequestLog;
pub use crate::records::HTTPResponseLog;
pub use crate::timestamp::Timestamp;
pub use crate::tags::LogDistinction;
pub use crate::tags::LogLevel;
pub use crate::tags::LogType;
