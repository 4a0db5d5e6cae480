//! Local consumer facade over the gateway service.
//!
//! The facade is the domain boundary: a domain error crosses it exactly
//! once, where it is logged with full internal detail and then converted
//! to the coarser public SDK error. The conversion and the choice of log
//! severity are verified here; emitting the log line itself is left to the
//! surrounding runtime.

use vstd::prelude::*;

use crate::errors::CredStoreError;
use crate::errors::DomainError;
use crate::errors::spec_maps_to_sdk;
use crate::models::GetSecretResponse;
use crate::service::Service;

verus! {

/// Severity of the boundary log emitted before a domain error is
/// converted.
#[derive(Debug, Clone, Copy, PartialEq, Eq, Structural)]
pub enum LogSeverity {
    Debug,
    Error,
}

/// Not-found is routine and logged at debug level; every other failure is
/// logged at error level, with the full domain error detail.
pub open spec fn spec_log_severity(e: DomainError) -> LogSeverity {
    match e {
        DomainError::NotFound => LogSeverity::Debug,
        _ => LogSeverity::Error,
    }
}

/// Chooses the severity of the boundary log for a failed operation.
pub fn log_severity(e: &DomainError) -> (s: LogSeverity)
    ensures
        s == spec_log_severity(*e),
{
    match e {
        DomainError::NotFound => LogSeverity::Debug,
        _ => LogSeverity::Error,
    }
}

/// Converts a domain error to the public SDK error at the consumer
/// boundary. The operation name `op` belongs to the diagnostic the caller
/// emits alongside; the conversion itself does not depend on it.
pub fn log_and_convert(op: &str, e: DomainError) -> (r: CredStoreError)
    ensures
        spec_maps_to_sdk(e, r),
{
    let _ = op;
    e.to_sdk()
}

/// Local (in-process) client wrapping the gateway service: the object the
/// surrounding runtime publishes to credential consumers.
pub struct CredStoreLocalClient {
    pub svc: Service,
}

impl CredStoreLocalClient {
    /// Creates a new local client wrapping the given service.
    pub fn new(svc: Service) -> (c: Self)
        ensures
            c.svc == svc,
    {
        CredStoreLocalClient { svc }
    }

    /// The consumer-facing tail of a retrieval: a domain success passes
    /// through unchanged, a domain error leaves as the corresponding SDK
    /// error.
    pub fn convert_get_result(r: Result<Option<GetSecretResponse>, DomainError>) -> (out: Result<
        Option<GetSecretResponse>,
        CredStoreError,
    >)
        ensures
            r matches Ok(v) ==> (out matches Ok(w) && w == v),
            r matches Err(e) ==> (out matches Err(se) && spec_maps_to_sdk(e, se)),
    {
        match r {
            Ok(v) => Ok(v),
            Err(e) => Err(log_and_convert("get", e)),
        }
    }
}

} // verus!
