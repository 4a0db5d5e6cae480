//! Secret-store gateway core.
//!
//! A gateway that sits between credential consumers and interchangeable
//! backend storage plugins. It discovers which backend instance serves a
//! configured vendor, memoizes that discovery safely (success only — a
//! failed resolution is retried on the next call), routes retrieval calls
//! to the live backend handle, rate-limits its diagnostic logging, and
//! translates between the internal domain errors and the public SDK error
//! contract without leaking internal identifiers.

pub mod auth;
pub mod client;
pub mod errors;
pub mod models;
pub mod resolve;
pub mod selector;
pub mod service;
pub mod throttle;
