//! Request-scoped structured logging with correlation-id propagation and
//! sensitive-header redaction.
//!
//! The library models one HTTP exchange as plain values: a method, a URI and
//! an ordered list of header entries whose values are raw bytes. Around that
//! model it verifies the observability pipeline: a correlation id is read from
//! the request or freshly generated, one request event and one response event
//! are built carrying that id, sensitive header values are masked before they
//! reach any event, and the id is written onto the response headers last.

pub mod correlation;
pub mod events;
pub mod headers;
pub mod pipeline;
pub mod sensitive;
pub mod text;
