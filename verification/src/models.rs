//! Domain data model of the gateway: secret references and values, sharing
//! policy, and the metadata bundles exchanged with backend plugins and
//! consumers.

use vstd::prelude::*;

use crate::errors::CredStoreError;

verus! {

/// Identifier of the tenant that owns a secret.
#[derive(Debug, Clone, PartialEq, Eq, Hash)]
pub struct TenantId(pub String);

/// Identifier of the principal that stored a secret.
#[derive(Debug, Clone, PartialEq, Eq, Hash)]
pub struct OwnerId(pub String);

/// Validated, immutable reference to a secret, usable as a lookup key.
///
/// Well-formed references are exactly the non-empty ones; [`SecretRef::new`]
/// rejects the rest, so every value built through it satisfies [`SecretRef::wf`].
#[derive(Debug, Clone, PartialEq, Eq, Hash)]
pub struct SecretRef {
    pub name: String,
}

impl SecretRef {
    /// A well-formed reference has a non-empty name.
    pub open spec fn wf(&self) -> bool {
        self.name@.len() > 0
    }

    /// Validates and constructs a secret reference: succeeds on exactly the
    /// non-empty names and rejects the empty one as malformed.
    pub fn new(name: String) -> (r: Result<Self, CredStoreError>)
        ensures
            name@.len() > 0 ==> (r matches Ok(s) && s.name@ == name@ && s.wf()),
            name@.len() == 0 ==> (r matches Err(e) && (e matches CredStoreError::InvalidSecretRef {
                ..
            })),
    {
        if name.as_str().is_empty() {
            Err(CredStoreError::invalid_ref("secret reference must not be empty".to_owned()))
        } else {
            Ok(SecretRef { name })
        }
    }
}

/// Opaque decrypted secret payload. It is never rendered as text by this
/// crate and is owned exclusively by the response that carries it.
#[derive(Debug, Clone, PartialEq, Eq)]
pub struct SecretValue {
    pub bytes: Vec<u8>,
}

impl SecretValue {
    /// Wraps a decrypted byte payload.
    pub fn from_bytes(bytes: Vec<u8>) -> (v: Self)
        ensures
            v.bytes@ == bytes@,
    {
        SecretValue { bytes }
    }

    /// The raw decrypted bytes.
    pub fn as_bytes(&self) -> (b: &Vec<u8>)
        ensures
            b@ == self.bytes@,
    {
        &self.bytes
    }
}

/// Visibility policy a secret was stored under.
#[derive(Debug, Clone, Copy, PartialEq, Eq, Structural)]
pub enum SharingMode {
    /// Visible to every principal of the owning tenant.
    Tenant,
    /// Visible only to the principal that stored it.
    Owner,
}

/// What a backend plugin returns for a present secret.
#[derive(Debug, Clone)]
pub struct SecretMetadata {
    pub value: SecretValue,
    pub owner_tenant_id: TenantId,
    pub sharing: SharingMode,
}

/// What the consumer receives for a present secret. `is_inherited` records
/// that the value came from hierarchical tenant fallback rather than from
/// the requesting tenant directly.
#[derive(Debug, Clone)]
pub struct GetSecretResponse {
    pub value: SecretValue,
    pub owner_tenant_id: TenantId,
    pub sharing: SharingMode,
    pub is_inherited: bool,
}

} // verus!
