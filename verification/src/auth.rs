//! Authentication configuration and claim-validation errors.
//!
//! These types carry the settings the surrounding runtime loads for
//! token validation; the fallback values used when a setting is absent are
//! stated (and proved) here.

use vstd::prelude::*;

verus! {

/// Leeway in seconds applied to time-based claim checks when none is
/// configured.
pub fn default_leeway() -> (r: i64)
    ensures
        r == 60,
{
    60
}

/// JWKS refresh interval in seconds when none is configured.
pub fn default_refresh_interval() -> (r: u64)
    ensures
        r == 300,
{
    300
}

/// Maximum JWKS refresh backoff in seconds when none is configured.
pub fn default_max_backoff() -> (r: u64)
    ensures
        r == 3600,
{
    3600
}

/// JWKS endpoint configuration.
#[derive(Debug, Clone)]
pub struct JwksConfig {
    /// JWKS endpoint URL.
    pub uri: String,
    /// Refresh interval in seconds.
    pub refresh_interval_seconds: u64,
    /// Maximum backoff in seconds.
    pub max_backoff_seconds: u64,
}

/// Main authentication configuration.
#[derive(Debug, Clone)]
pub struct AuthConfig {
    /// Leeway in seconds for time-based validations.
    pub leeway_seconds: i64,
    /// Allowed issuers; empty accepts any issuer.
    pub issuers: Vec<String>,
    /// Allowed audiences; empty accepts any audience.
    pub audiences: Vec<String>,
    /// JWKS configuration, if any.
    pub jwks: Option<JwksConfig>,
}

impl Default for AuthConfig {
    /// The configuration used when nothing is configured: default leeway,
    /// any issuer, any audience, no JWKS endpoint.
    fn default() -> (c: Self)
        ensures
            c.leeway_seconds == 60,
            c.issuers@.len() == 0,
            c.audiences@.len() == 0,
            c.jwks is None,
    {
        AuthConfig {
            leeway_seconds: 60,
            issuers: Vec::new(),
            audiences: Vec::new(),
            jwks: Option::None,
        }
    }
}

/// The settings claim validation actually consumes.
#[derive(Debug, Clone)]
pub struct ValidationConfig {
    pub allowed_issuers: Vec<String>,
    pub allowed_audiences: Vec<String>,
    pub leeway_seconds: i64,
}

impl ValidationConfig {
    /// Derives the claim-validation settings from an authentication
    /// configuration: issuers, audiences and leeway carry over unchanged.
    pub fn from(config: &AuthConfig) -> (v: Self)
        ensures
            v.allowed_issuers@ == config.issuers@,
            v.allowed_audiences@ == config.audiences@,
            v.leeway_seconds == config.leeway_seconds,
    {
        let allowed_issuers = config.issuers.clone();
        let allowed_audiences = config.audiences.clone();
        proof {
            lemma_string_vec_clone_view(config.issuers@, allowed_issuers@);
            lemma_string_vec_clone_view(config.audiences@, allowed_audiences@);
        }
        ValidationConfig {
            allowed_issuers,
            allowed_audiences,
            leeway_seconds: config.leeway_seconds,
        }
    }
}

/// A clone of a vector of strings is the very same sequence: each cloned
/// string equals its original.
proof fn lemma_string_vec_clone_view(orig: Seq<String>, copy: Seq<String>)
    requires
        copy.len() == orig.len(),
        forall|i: int| #![all_triggers] 0 <= i < orig.len() ==> cloned::<String>(orig[i], copy[i]),
    ensures
        copy == orig,
{
    assert forall|i: int| 0 <= i < orig.len() implies copy[i] == orig[i] by {
        assert(cloned::<String>(orig[i], copy[i]));
    }
    assert(copy =~= orig);
}

/// Failures of token claim validation.
#[derive(Debug, Clone)]
pub enum ClaimsError {
    /// The token's issuer is not among the allowed ones.
    InvalidIssuer { expected: Vec<String>, actual: String },
    /// None of the token's audiences is among the allowed ones.
    InvalidAudience { expected: Vec<String>, actual: Vec<String> },
    /// The token has expired.
    Expired,
    /// A required claim is absent.
    MissingClaim(String),
    /// The token's key id is unknown even after a JWKS refresh.
    UnknownKidAfterRefresh,
    /// A claim is present but malformed.
    InvalidClaimFormat { field: String, reason: String },
}

} // verus!
