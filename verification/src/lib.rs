//! Request-translation core for a digital-archive HTTP adapter.
//!
//! The library turns a named archive operation with partially-optional
//! arguments into a deterministic HTTP request plan (method, resolved path,
//! ordered query parameters, optional body) and classifies the raw transport
//! result into a uniform outcome. Everything here is pure computation; the
//! surrounding binary performs the network round trip and the JSON
//! (de)serialization and feeds the results back in.

pub mod client;
pub mod dispatch;
pub mod laws;
pub mod model;
pub mod numfmt;
pub mod query;
pub mod response;
