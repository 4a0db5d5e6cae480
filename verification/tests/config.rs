use credstore::auth::AuthConfig;
use credstore::auth::ClaimsError;
use credstore::auth::ValidationConfig;
use credstore::auth::default_leeway;
use credstore::auth::default_max_backoff;
use credstore::auth::default_refresh_interval;

#[test]
fn test_default_config() {
    let config = AuthConfig::default();
    assert_eq!(config.leeway_seconds, 60);
    assert!(config.issuers.is_empty());
    assert!(config.audiences.is_empty());
    assert!(config.jwks.is_none());
}

#[test]
fn test_auth_config_to_validation_config() {
    let auth_config = AuthConfig {
        leeway_seconds: 30,
        issuers: vec!["https://auth.example.com".to_owned()],
        audiences: vec!["api".to_owned()],
        jwks: None,
    };
    let validation_config = ValidationConfig::from(&auth_config);
    assert_eq!(validation_config.allowed_issuers, auth_config.issuers);
    assert_eq!(validation_config.allowed_audiences, auth_config.audiences);
    assert_eq!(validation_config.leeway_seconds, auth_config.leeway_seconds);
}

#[test]
fn test_claims_error_types() {
    let err = ClaimsError::InvalidIssuer {
        expected: vec!["https://expected.com".to_owned()],
        actual: "https://actual.com".to_owned(),
    };
    assert!(matches!(
        err,
        ClaimsError::InvalidIssuer { ref expected, ref actual }
            if expected == &vec!["https://expected.com".to_owned()]
                && actual == "https://actual.com"
    ));

    let err = ClaimsError::Expired;
    assert!(matches!(err, ClaimsError::Expired));

    let err = ClaimsError::MissingClaim("sub".to_owned());
    assert!(matches!(err, ClaimsError::MissingClaim(ref c) if c == "sub"));

    let err = ClaimsError::UnknownKidAfterRefresh;
    assert!(matches!(err, ClaimsError::UnknownKidAfterRefresh));

    let err = ClaimsError::InvalidClaimFormat {
        field: "typ".to_owned(),
        reason: "expected string, got number".to_owned(),
    };
    assert!(matches!(
        err,
        ClaimsError::InvalidClaimFormat { ref field, ref reason }
            if field == "typ" && reason == "expected string, got number"
    ));

    let err = ClaimsError::InvalidAudience {
        expected: vec!["https://api.example.com".to_owned()],
        actual: vec!["https://other.example.com".to_owned()],
    };
    assert!(matches!(
        err,
        ClaimsError::InvalidAudience { ref expected, ref actual }
            if expected == &vec!["https://api.example.com".to_owned()]
                && actual == &vec!["https://other.example.com".to_owned()]
    ));
}

#[test]
fn test_default_fallback_values() {
    assert_eq!(default_leeway(), 60);
    assert_eq!(default_refresh_interval(), 300);
    assert_eq!(default_max_backoff(), 3600);
}
