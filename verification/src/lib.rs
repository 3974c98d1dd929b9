//! Gateway core for a JSON-over-HTTP façade in front of an embedded
//! relational store.
//!
//! The crate verifies the request-execution pipeline: marshalling between
//! the store's column values and a JSON scalar model (`value`, `marshal`),
//! classification and sequencing of single and batch statements as a step
//! machine driven by an outside executor (`dispatch`), and the best-effort
//! audit logger (`audit`). The HTTP transport, process bootstrap and the
//! single worker that owns the store connection live outside the library
//! and drive the step machine.

pub mod audit;
pub mod dispatch;
pub mod marshal;
pub mod request;
pub mod value;
