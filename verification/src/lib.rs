//! A driver-based database connectivity core: connection descriptors that
//! render to driver connection strings, a session and application state
//! machine with a strict connect/execute/disconnect lifecycle, and a
//! streaming serializer that turns result sets into semicolon-delimited
//! text, one line per row under a header line of column names.
//!
//! The crate holds no connection itself: the caller performs the driver
//! work (opening connections, submitting statements, fetching row batches)
//! and reports each outcome, and the library decides every transition and
//! builds every byte of the output under the contracts stated here.

pub mod descriptor;
pub mod render;
pub mod session;
