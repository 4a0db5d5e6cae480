//! Error taxonomy: the internal domain errors, the public SDK errors, and
//! the deliberately lossy translation between them.
//!
//! The domain side carries internal detail (vendor, plugin instance id);
//! the SDK side is coarser. Mapping a domain error to an SDK error drops
//! the vendor outright and keeps instance id and reason only as free text
//! inside a reformatted message. The reverse mapping cannot recover those
//! fields and fills them with a sentinel placeholder — a documented,
//! accepted information loss.

use vstd::prelude::*;
use vstd::string::*;

verus! {

/// Public SDK error contract, as seen by credential consumers.
#[derive(Debug, Clone)]
pub enum CredStoreError {
    InvalidSecretRef { reason: String },
    NotFound,
    NoPluginAvailable,
    ServiceUnavailable(String),
    Internal(String),
}

impl CredStoreError {
    /// Builds the error for a malformed secret reference.
    pub fn invalid_ref(reason: String) -> (e: Self)
        ensures
            e matches CredStoreError::InvalidSecretRef { reason: r } && r@ == reason@,
    {
        CredStoreError::InvalidSecretRef { reason }
    }

    /// Builds the transient-unavailability error.
    pub fn service_unavailable(msg: String) -> (e: Self)
        ensures
            e matches CredStoreError::ServiceUnavailable(m) && m@ == msg@,
    {
        CredStoreError::ServiceUnavailable(msg)
    }

    /// Builds the catch-all internal error.
    pub fn internal(msg: String) -> (e: Self)
        ensures
            e matches CredStoreError::Internal(m) && m@ == msg@,
    {
        CredStoreError::Internal(msg)
    }
}

/// Internal domain errors of the gateway.
#[derive(Debug, Clone)]
pub enum DomainError {
    TypesRegistryUnavailable(String),
    PluginNotFound { vendor: String },
    InvalidPluginInstance { gts_id: String, reason: String },
    PluginUnavailable { gts_id: String, reason: String },
    NotFound,
    Internal(String),
}

/// The message text an SDK `Internal` error carries for an invalid plugin
/// instance: the instance id and reason survive only as free text.
pub open spec fn spec_invalid_instance_message(gts_id: Seq<char>, reason: Seq<char>) -> Seq<char> {
    "invalid plugin instance '"@ + gts_id + "': "@ + reason
}

/// The message text an SDK `ServiceUnavailable` error carries for a plugin
/// whose live handle is missing.
pub open spec fn spec_unavailable_message(gts_id: Seq<char>, reason: Seq<char>) -> Seq<char> {
    "plugin not available for '"@ + gts_id + "': "@ + reason
}

/// The domain → SDK mapping, stated relationally: which SDK error each
/// domain error becomes. Lossy by design: the vendor is dropped, instance
/// ids survive only inside reformatted message text.
pub open spec fn spec_maps_to_sdk(e: DomainError, r: CredStoreError) -> bool {
    match e {
        DomainError::TypesRegistryUnavailable(reason) => r matches CredStoreError::Internal(m)
            && m@ == reason@,
        DomainError::PluginNotFound { vendor } => r == CredStoreError::NoPluginAvailable,
        DomainError::InvalidPluginInstance { gts_id, reason } => r matches CredStoreError::Internal(
            m,
        ) && m@ == spec_invalid_instance_message(gts_id@, reason@),
        DomainError::PluginUnavailable { gts_id, reason } => r matches CredStoreError::ServiceUnavailable(
            m,
        ) && m@ == spec_unavailable_message(gts_id@, reason@),
        DomainError::NotFound => r == CredStoreError::NotFound,
        DomainError::Internal(msg) => r matches CredStoreError::Internal(m) && m@ == msg@,
    }
}

/// The SDK → domain mapping, stated relationally. The coarser SDK error
/// cannot name a vendor or an instance id, so those fields come back as the
/// sentinel `"unknown"`.
pub open spec fn spec_maps_to_domain(e: CredStoreError, r: DomainError) -> bool {
    match e {
        CredStoreError::NotFound => r == DomainError::NotFound,
        CredStoreError::NoPluginAvailable => r matches DomainError::PluginNotFound { vendor }
            && vendor@ == "unknown"@,
        CredStoreError::ServiceUnavailable(msg) => r matches DomainError::PluginUnavailable {
            gts_id,
            reason,
        } && gts_id@ == "unknown"@ && reason@ == msg@,
        CredStoreError::InvalidSecretRef { reason } => r matches DomainError::Internal(m) && m@
            == reason@,
        CredStoreError::Internal(msg) => r matches DomainError::Internal(m) && m@ == msg@,
    }
}

impl DomainError {
    /// Translates a domain error into the public SDK error, dropping the
    /// vendor and reformatting instance detail into message text.
    pub fn to_sdk(self) -> (r: CredStoreError)
        ensures
            spec_maps_to_sdk(self, r),
    {
        match self {
            DomainError::TypesRegistryUnavailable(reason) => CredStoreError::Internal(reason),
            DomainError::PluginNotFound { vendor: _ } => CredStoreError::NoPluginAvailable,
            DomainError::InvalidPluginInstance { gts_id, reason } => {
                let mut m = "invalid plugin instance '".to_owned();
                m.append(gts_id.as_str());
                m.append("': ");
                m.append(reason.as_str());
                proof {
                    assert(m@ =~= spec_invalid_instance_message(gts_id@, reason@));
                }
                CredStoreError::Internal(m)
            },
            DomainError::PluginUnavailable { gts_id, reason } => {
                let mut m = "plugin not available for '".to_owned();
                m.append(gts_id.as_str());
                m.append("': ");
                m.append(reason.as_str());
                proof {
                    assert(m@ =~= spec_unavailable_message(gts_id@, reason@));
                }
                CredStoreError::ServiceUnavailable(m)
            },
            DomainError::NotFound => CredStoreError::NotFound,
            DomainError::Internal(msg) => CredStoreError::Internal(msg),
        }
    }

    /// Reconstructs a domain error from an SDK error (as returned by a
    /// backend plugin). Vendor and instance id cannot be recovered and are
    /// filled with the sentinel `"unknown"`.
    pub fn from_sdk(e: CredStoreError) -> (r: DomainError)
        ensures
            spec_maps_to_domain(e, r),
    {
        match e {
            CredStoreError::NotFound => DomainError::NotFound,
            CredStoreError::NoPluginAvailable => DomainError::PluginNotFound {
                vendor: "unknown".to_owned(),
            },
            CredStoreError::ServiceUnavailable(msg) => DomainError::PluginUnavailable {
                gts_id: "unknown".to_owned(),
                reason: msg,
            },
            CredStoreError::InvalidSecretRef { reason } => DomainError::Internal(reason),
            CredStoreError::Internal(msg) => DomainError::Internal(msg),
        }
    }
}

/// The free-text message (if any) that a public SDK error carries.
pub open spec fn spec_sdk_message(e: CredStoreError) -> Option<Seq<char>> {
    match e {
        CredStoreError::InvalidSecretRef { reason } => Option::Some(reason@),
        CredStoreError::NotFound => Option::None,
        CredStoreError::NoPluginAvailable => Option::None,
        CredStoreError::ServiceUnavailable(m) => Option::Some(m@),
        CredStoreError::Internal(m) => Option::Some(m@),
    }
}

/// A domain error that carries a vendor maps to an SDK error with no
/// message at all, so no inspection of the mapped result can recover the
/// vendor string. (Instance ids, by contrast, deliberately survive as free
/// text inside `Internal` and `ServiceUnavailable` messages.)
pub proof fn lemma_vendor_never_leaked(e: DomainError, r: CredStoreError)
    requires
        e matches DomainError::PluginNotFound { .. },
        spec_maps_to_sdk(e, r),
    ensures
        r == CredStoreError::NoPluginAvailable,
        spec_sdk_message(r) is None,
{
}

} // verus!
