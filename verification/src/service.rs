//! The gateway service: orchestrates plugin selection, the per-call live
//! handle lookup, and the retrieval contract.
//!
//! The collaborators — type registry, client registry and backend plugin —
//! live outside this crate and may block on I/O, so the service is written
//! as a state machine: the surrounding runtime performs each outside call
//! and hands its outcome to the next step. Every decision the service
//! takes between those calls is verified here, for every outcome the
//! collaborators can produce.
//!
//! A retrieval runs through three steps:
//! 1. [`Service::cached_plugin`] / [`Service::resolve_with`] — obtain the
//!    resolved plugin instance identifier, memoized on first success;
//! 2. [`Service::handle_lookup`] — react to the per-call live-handle
//!    lookup, which is never cached: a missing handle is a transient
//!    condition reported with a rate-limited diagnostic;
//! 3. [`Service::finish_get`] — translate the backend's answer, collapsing
//!    "absent" and a thrown not-found into the same `Ok(None)`.

use vstd::prelude::*;

use crate::errors::CredStoreError;
use crate::errors::DomainError;
use crate::errors::spec_maps_to_domain;
use crate::models::GetSecretResponse;
use crate::models::SecretMetadata;
use crate::resolve::RegistryEntry;
use crate::resolve::choose_plugin_instance;
use crate::resolve::spec_resolution_result;
use crate::selector::PluginSelector;
use crate::selector::spec_outcome_view;
use crate::selector::spec_selector_after;
use crate::throttle::ThrottledLog;
use crate::throttle::spec_after_call;
use crate::throttle::spec_should_log;

verus! {

/// Milliseconds between two "plugin not yet live" warnings.
pub const UNAVAILABLE_LOG_THROTTLE_MS: u64 = 10000;

/// What the type-registry interaction of one resolution attempt produced.
pub enum ListingEvent {
    /// No registry client could be obtained; its error message.
    RegistryUnavailable(String),
    /// The listing call itself failed; its error message.
    ListFailed(String),
    /// The entries the registry returned for the schema-prefix query.
    Listed(Vec<RegistryEntry>),
}

/// The gateway service. Holds the configured vendor (immutable for its
/// lifetime), the memoized plugin selection, and the throttle state of the
/// "plugin not yet live" diagnostic — the only mutable state it has.
pub struct Service {
    pub vendor: String,
    pub selector: PluginSelector,
    pub unavailable_log_throttle: ThrottledLog,
}

impl Service {
    /// Creates a service for `vendor` with lazy plugin resolution: nothing
    /// is resolved yet and no diagnostic has been emitted.
    pub fn new(vendor: String) -> (s: Self)
        ensures
            s.vendor@ == vendor@,
            s.selector.memo() is None,
            s.unavailable_log_throttle.interval_ms == UNAVAILABLE_LOG_THROTTLE_MS,
            s.unavailable_log_throttle.last_emit_ms is None,
    {
        Service {
            vendor,
            selector: PluginSelector::new(),
            unavailable_log_throttle: ThrottledLog::new(UNAVAILABLE_LOG_THROTTLE_MS),
        }
    }

    /// The memoized plugin instance identifier, if resolution has already
    /// succeeded. A caller that finds `Some` skips the registry entirely.
    pub fn cached_plugin(&self) -> (r: Option<String>)
        ensures
            match r {
                Option::Some(id) => self.selector.memo() == Option::Some(id@),
                Option::None => self.selector.memo() is None,
            },
    {
        self.selector.cached()
    }

    /// Finishes a resolution attempt from what the registry produced:
    /// registry failures become the corresponding domain errors and are
    /// not memoized; a listing is scanned for the configured vendor and
    /// only a successful choice is memoized. A concurrent attempt that
    /// already memoized an identifier wins: that identifier is returned
    /// and this attempt's outcome is discarded.
    pub fn resolve_with(&mut self, listing: ListingEvent) -> (r: Result<String, DomainError>)
        ensures
            final(self).vendor == old(self).vendor,
            final(self).unavailable_log_throttle == old(self).unavailable_log_throttle,
            final(self).selector.memo() == spec_selector_after(
                old(self).selector.memo(),
                spec_outcome_view(&r),
            ),
            old(self).selector.memo() matches Some(id) ==> (r matches Ok(rid) && rid@ == id),
            old(self).selector.memo() is None ==> match listing {
                ListingEvent::RegistryUnavailable(m) => r matches Err(e) && (e
                    matches DomainError::TypesRegistryUnavailable(msg) && msg@ == m@),
                ListingEvent::ListFailed(m) => r matches Err(e) && (e
                    matches DomainError::Internal(msg) && msg@ == m@),
                ListingEvent::Listed(entries) => spec_resolution_result(
                    old(self).vendor@,
                    entries@,
                    r,
                ),
            },
    {
        let outcome = match listing {
            ListingEvent::RegistryUnavailable(m) => Err(DomainError::TypesRegistryUnavailable(m)),
            ListingEvent::ListFailed(m) => Err(DomainError::Internal(m)),
            ListingEvent::Listed(entries) => choose_plugin_instance(
                self.vendor.as_str(),
                &entries,
            ),
        };
        self.selector.complete(outcome)
    }

    /// Reacts to the per-call live-handle lookup for the resolved instance
    /// `gts_id`. A found handle lets the call proceed. A missing handle is
    /// transient — expected to self-heal without re-running discovery — and
    /// yields `PluginUnavailable`, together with the rate-limited decision
    /// whether to emit the "not registered yet" warning at `now_ms`.
    pub fn handle_lookup(&mut self, gts_id: &String, found: bool, now_ms: u64) -> (r: (
        Result<(), DomainError>,
        bool,
    ))
        ensures
            final(self).vendor == old(self).vendor,
            final(self).selector == old(self).selector,
            found ==> r.0 is Ok && r.1 == false && final(self).unavailable_log_throttle == old(
                self
            ).unavailable_log_throttle,
            !found ==> (r.0 matches Err(e) && (e matches DomainError::PluginUnavailable {
                gts_id: g,
                reason,
            } && g@ == gts_id@ && reason@ == "client not registered yet"@)),
            !found ==> r.1 == spec_should_log(old(self).unavailable_log_throttle, now_ms) && final(
                self
            ).unavailable_log_throttle == spec_after_call(
                old(self).unavailable_log_throttle,
                now_ms,
            ),
    {
        if found {
            (Ok(()), false)
        } else {
            let warn = self.unavailable_log_throttle.should_log(now_ms);
            (
                Err(
                    DomainError::PluginUnavailable {
                        gts_id: gts_id.clone(),
                        reason: "client not registered yet".to_owned(),
                    },
                ),
                warn,
            )
        }
    }

    /// Translates the backend's answer into the consumer-layer result.
    pub fn finish_get(backend: Result<Option<SecretMetadata>, CredStoreError>) -> (r: Result<
        Option<GetSecretResponse>,
        DomainError,
    >)
        ensures
            spec_finish_get(backend, r),
    {
        match backend {
            Ok(Some(meta)) => Ok(
                Some(
                    GetSecretResponse {
                        value: meta.value,
                        owner_tenant_id: meta.owner_tenant_id,
                        sharing: meta.sharing,
                        is_inherited: false,
                    },
                ),
            ),
            Ok(None) => Ok(None),
            Err(CredStoreError::NotFound) => Ok(None),
            Err(e) => Err(DomainError::from_sdk(e)),
        }
    }
}

/// The retrieval contract's tail: a present secret becomes a response with
/// `is_inherited == false`; a backend "absent" and a backend-thrown
/// not-found both collapse to `Ok(None)`, so the two cases cannot be told
/// apart; every other backend failure is translated and surfaced.
pub open spec fn spec_finish_get(
    backend: Result<Option<SecretMetadata>, CredStoreError>,
    r: Result<Option<GetSecretResponse>, DomainError>,
) -> bool {
    match backend {
        Ok(Some(meta)) => r matches Ok(o) && (o matches Some(resp) && resp.value == meta.value
            && resp.owner_tenant_id == meta.owner_tenant_id && resp.sharing == meta.sharing
            && resp.is_inherited == false),
        Ok(None) => r == Ok::<Option<GetSecretResponse>, DomainError>(Option::None),
        Err(CredStoreError::NotFound) => r == Ok::<Option<GetSecretResponse>, DomainError>(
            Option::None,
        ),
        Err(e) => r matches Err(d) && spec_maps_to_domain(e, d),
    }
}

/// Anti-enumeration: a backend that reports the secret absent (`Ok(None)`)
/// and a backend that raises its not-found error produce the very same
/// consumer-visible result, `Ok(None)` — the two are observationally
/// indistinguishable.
pub proof fn lemma_anti_enumeration(
    r_absent: Result<Option<GetSecretResponse>, DomainError>,
    r_thrown: Result<Option<GetSecretResponse>, DomainError>,
)
    requires
        spec_finish_get(Ok(Option::None), r_absent),
        spec_finish_get(Err(CredStoreError::NotFound), r_thrown),
    ensures
        r_absent == Ok::<Option<GetSecretResponse>, DomainError>(Option::None),
        r_thrown == r_absent,
{
}

} // verus!
