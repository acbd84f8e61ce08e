//! A documentation-retrieval tool server: it resolves library names to
//! slash-delimited library identifiers and fetches documentation text for an
//! identifier from a single upstream HTTP service.
//!
//! This crate holds the decision logic only: building outbound request plans
//! from typed arguments, interpreting upstream status codes into a closed
//! error taxonomy, and rendering structured results into operator-facing
//! text. The transport itself (HTTP, the tool-invocation protocol loop) is
//! performed by a thin unverified shell around this library.

pub mod client;
pub mod formatting;
pub mod server;
pub mod text;
