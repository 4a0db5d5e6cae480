use credstore::client::CredStoreLocalClient;
use credstore::client::LogSeverity;
use credstore::client::log_and_convert;
use credstore::client::log_severity;
use credstore::errors::CredStoreError;
use credstore::errors::DomainError;
use credstore::models::GetSecretResponse;
use credstore::models::SecretMetadata;
use credstore::models::SecretRef;
use credstore::models::SecretValue;
use credstore::models::SharingMode;
use credstore::models::TenantId;
use credstore::resolve::CredStorePluginSpecV1;
use credstore::resolve::RegistryEntry;
use credstore::resolve::choose_plugin_instance;
use credstore::resolve::str_starts_with;
use credstore::selector::PluginSelector;
use credstore::service::ListingEvent;
use credstore::service::Service;
use credstore::throttle::ThrottledLog;

fn entry(id_suffix: &str, content: &str) -> RegistryEntry {
    RegistryEntry {
        gts_id: format!("{}{}", CredStorePluginSpecV1::gts_schema_id(), id_suffix),
        content: content.to_owned(),
    }
}

#[test]
fn resolve_selects_matching_vendor() {
    let entries = vec![entry("acme.v1", "{\"vendor\": \"acme\"}")];
    let r = choose_plugin_instance("acme", &entries);
    assert_eq!(r.unwrap(), entries[0].gts_id);
}

#[test]
fn resolve_empty_listing_reports_no_plugin() {
    let r = choose_plugin_instance("acme", &Vec::new());
    assert!(matches!(r, Err(DomainError::PluginNotFound { ref vendor }) if vendor == "acme"));
    let sdk = log_and_convert("get", r.unwrap_err());
    assert!(matches!(sdk, CredStoreError::NoPluginAvailable));
}

#[test]
fn resolve_reads_vendor_from_content() {
    let entries = vec![
        entry("first.v1", "{\"vendor\": \"other\"}"),
        entry("second.v1", "{\"vendor\": \"acme\"}"),
    ];
    let r = choose_plugin_instance("acme", &entries);
    assert_eq!(r.unwrap(), entries[1].gts_id);
}

#[test]
fn resolve_no_vendor_match_reports_no_plugin() {
    let entries = vec![entry("first.v1", "{\"vendor\": \"other\"}")];
    let r = choose_plugin_instance("acme", &entries);
    assert!(matches!(r, Err(DomainError::PluginNotFound { ref vendor }) if vendor == "acme"));
}

#[test]
fn resolve_malformed_content_is_configuration_error() {
    let entries = vec![entry("broken.v1", "this is not json")];
    let r = choose_plugin_instance("acme", &entries);
    match r {
        Err(DomainError::InvalidPluginInstance { gts_id, reason }) => {
            assert_eq!(gts_id, entries[0].gts_id);
            assert_eq!(reason, "missing or non-string 'vendor' in instance content");
        }
        other => panic!("expected InvalidPluginInstance, got {:?}", other),
    }
}

#[test]
fn resolve_missing_vendor_member_is_configuration_error() {
    let entries = vec![entry("nameless.v1", "{\"name\": \"acme\"}")];
    let r = choose_plugin_instance("acme", &entries);
    assert!(matches!(r, Err(DomainError::InvalidPluginInstance { .. })));
}

#[test]
fn resolve_ignores_entries_outside_schema_prefix() {
    let entries = vec![RegistryEntry {
        gts_id: "gts.x.core.other.plugin.v1~acme.v1".to_owned(),
        content: "{\"vendor\": \"acme\"}".to_owned(),
    }];
    let r = choose_plugin_instance("acme", &entries);
    assert!(matches!(r, Err(DomainError::PluginNotFound { .. })));
}

#[test]
fn resolve_multiple_matches_picks_first_in_registry_order() {
    let entries = vec![
        entry("one.v1", "{\"vendor\": \"acme\"}"),
        entry("two.v1", "{\"vendor\": \"acme\"}"),
    ];
    let r = choose_plugin_instance("acme", &entries);
    assert_eq!(r.unwrap(), entries[0].gts_id);
}

#[test]
fn prefix_test_basics() {
    assert!(str_starts_with("abcdef", "abc"));
    assert!(str_starts_with("abc", ""));
    assert!(str_starts_with("abc", "abc"));
    assert!(!str_starts_with("abc", "abcd"));
    assert!(!str_starts_with("abc", "abd"));
}

#[test]
fn selector_memoizes_first_success() {
    let mut sel = PluginSelector::new();
    assert!(sel.cached().is_none());
    let first = sel.complete(Ok("plugin-a".to_owned()));
    assert_eq!(first.unwrap(), "plugin-a");
    // A racing attempt that resolved differently still observes the first
    // memoized identifier.
    let second = sel.complete(Ok("plugin-b".to_owned()));
    assert_eq!(second.unwrap(), "plugin-a");
    assert_eq!(sel.cached().unwrap(), "plugin-a");
}

#[test]
fn selector_retries_after_failure() {
    let mut sel = PluginSelector::new();
    let failed = sel.complete(Err(DomainError::TypesRegistryUnavailable("down".to_owned())));
    assert!(matches!(failed, Err(DomainError::TypesRegistryUnavailable(ref m)) if m == "down"));
    assert!(sel.cached().is_none());
    let retried = sel.complete(Ok("plugin-a".to_owned()));
    assert_eq!(retried.unwrap(), "plugin-a");
    assert_eq!(sel.cached().unwrap(), "plugin-a");
}

#[test]
fn throttle_emits_once_per_interval() {
    let mut t = ThrottledLog::new(10_000);
    assert!(t.should_log(0));
    assert!(!t.should_log(1));
    assert!(!t.should_log(5_000));
    assert!(!t.should_log(9_999));
    assert!(t.should_log(10_000));
    assert!(!t.should_log(10_001));
}

#[test]
fn service_resolves_and_memoizes() {
    let mut svc = Service::new("acme".to_owned());
    assert!(svc.cached_plugin().is_none());
    let entries = vec![entry("acme.v1", "{\"vendor\": \"acme\"}")];
    let expected = entries[0].gts_id.clone();
    let r = svc.resolve_with(ListingEvent::Listed(entries));
    assert_eq!(r.unwrap(), expected);
    assert_eq!(svc.cached_plugin().unwrap(), expected);
}

#[test]
fn service_registry_failures_are_not_memoized() {
    let mut svc = Service::new("acme".to_owned());
    let r = svc.resolve_with(ListingEvent::RegistryUnavailable("hub down".to_owned()));
    assert!(matches!(r, Err(DomainError::TypesRegistryUnavailable(ref m)) if m == "hub down"));
    assert!(svc.cached_plugin().is_none());
    let r = svc.resolve_with(ListingEvent::ListFailed("list timed out".to_owned()));
    assert!(matches!(r, Err(DomainError::Internal(ref m)) if m == "list timed out"));
    assert!(svc.cached_plugin().is_none());
}

#[test]
fn service_lookup_miss_warns_once_per_window() {
    let mut svc = Service::new("acme".to_owned());
    let id = "some-plugin".to_owned();

    let (r, warn) = svc.handle_lookup(&id, false, 1_000);
    assert!(warn);
    let e = r.unwrap_err();
    assert!(matches!(
        e,
        DomainError::PluginUnavailable { ref gts_id, ref reason }
            if gts_id == "some-plugin" && reason == "client not registered yet"
    ));
    let sdk = e.to_sdk();
    assert!(matches!(
        sdk,
        CredStoreError::ServiceUnavailable(ref m)
            if m == "plugin not available for 'some-plugin': client not registered yet"
    ));

    // Repeated misses inside the ten-second window stay silent...
    let (r, warn) = svc.handle_lookup(&id, false, 5_000);
    assert!(r.is_err());
    assert!(!warn);
    let (r, warn) = svc.handle_lookup(&id, false, 10_999);
    assert!(r.is_err());
    assert!(!warn);
    // ...and the warning fires again once the window has elapsed.
    let (r, warn) = svc.handle_lookup(&id, false, 11_000);
    assert!(r.is_err());
    assert!(warn);
}

#[test]
fn service_lookup_hit_is_silent() {
    let mut svc = Service::new("acme".to_owned());
    let id = "some-plugin".to_owned();
    let (r, warn) = svc.handle_lookup(&id, true, 1_000);
    assert!(r.is_ok());
    assert!(!warn);
}

#[test]
fn absent_secret_collapses_to_none() {
    let absent = Service::finish_get(Ok(None));
    assert!(matches!(absent, Ok(None)));
    let thrown = Service::finish_get(Err(CredStoreError::NotFound));
    assert!(matches!(thrown, Ok(None)));
}

#[test]
fn present_secret_builds_response() {
    let meta = SecretMetadata {
        value: SecretValue::from_bytes(vec![1, 2, 3]),
        owner_tenant_id: TenantId("tenant-1".to_owned()),
        sharing: SharingMode::Tenant,
    };
    let r = Service::finish_get(Ok(Some(meta)));
    let resp: GetSecretResponse = r.unwrap().unwrap();
    assert_eq!(resp.value.as_bytes(), &vec![1, 2, 3]);
    assert_eq!(resp.owner_tenant_id, TenantId("tenant-1".to_owned()));
    assert_eq!(resp.sharing, SharingMode::Tenant);
    assert!(!resp.is_inherited);
}

#[test]
fn backend_failures_are_surfaced() {
    let r = Service::finish_get(Err(CredStoreError::Internal("backend exploded".to_owned())));
    assert!(matches!(r, Err(DomainError::Internal(ref m)) if m == "backend exploded"));
    let r = Service::finish_get(Err(CredStoreError::ServiceUnavailable("tls".to_owned())));
    assert!(matches!(
        r,
        Err(DomainError::PluginUnavailable { ref gts_id, ref reason })
            if gts_id == "unknown" && reason == "tls"
    ));
}

#[test]
fn domain_to_sdk_mapping() {
    let sdk = DomainError::TypesRegistryUnavailable("registry gone".to_owned()).to_sdk();
    assert!(matches!(sdk, CredStoreError::Internal(ref m) if m == "registry gone"));

    let sdk = DomainError::PluginNotFound { vendor: "acme".to_owned() }.to_sdk();
    assert!(matches!(sdk, CredStoreError::NoPluginAvailable));

    let sdk = DomainError::InvalidPluginInstance {
        gts_id: "p1".to_owned(),
        reason: "broken".to_owned(),
    }
    .to_sdk();
    assert!(matches!(
        sdk,
        CredStoreError::Internal(ref m) if m == "invalid plugin instance 'p1': broken"
    ));

    let sdk = DomainError::PluginUnavailable {
        gts_id: "p1".to_owned(),
        reason: "down".to_owned(),
    }
    .to_sdk();
    assert!(matches!(
        sdk,
        CredStoreError::ServiceUnavailable(ref m) if m == "plugin not available for 'p1': down"
    ));

    let sdk = DomainError::NotFound.to_sdk();
    assert!(matches!(sdk, CredStoreError::NotFound));

    let sdk = DomainError::Internal("oops".to_owned()).to_sdk();
    assert!(matches!(sdk, CredStoreError::Internal(ref m) if m == "oops"));
}

#[test]
fn vendor_never_appears_in_mapped_error() {
    // The only domain error that carries a vendor maps to a variant with no
    // message at all, so no vendor substring can survive the boundary.
    let sdk = DomainError::PluginNotFound { vendor: "very-secret-vendor".to_owned() }.to_sdk();
    assert!(matches!(sdk, CredStoreError::NoPluginAvailable));
}

#[test]
fn sdk_to_domain_uses_sentinel() {
    let d = DomainError::from_sdk(CredStoreError::NoPluginAvailable);
    assert!(matches!(d, DomainError::PluginNotFound { ref vendor } if vendor == "unknown"));

    let d = DomainError::from_sdk(CredStoreError::ServiceUnavailable("m".to_owned()));
    assert!(matches!(
        d,
        DomainError::PluginUnavailable { ref gts_id, ref reason }
            if gts_id == "unknown" && reason == "m"
    ));

    let d = DomainError::from_sdk(CredStoreError::NotFound);
    assert!(matches!(d, DomainError::NotFound));

    let d = DomainError::from_sdk(CredStoreError::InvalidSecretRef { reason: "empty".to_owned() });
    assert!(matches!(d, DomainError::Internal(ref m) if m == "empty"));

    let d = DomainError::from_sdk(CredStoreError::Internal("x".to_owned()));
    assert!(matches!(d, DomainError::Internal(ref m) if m == "x"));
}

#[test]
fn sdk_error_constructors() {
    let e = CredStoreError::invalid_ref("bad".to_owned());
    assert!(matches!(e, CredStoreError::InvalidSecretRef { ref reason } if reason == "bad"));
    let e = CredStoreError::service_unavailable("later".to_owned());
    assert!(matches!(e, CredStoreError::ServiceUnavailable(ref m) if m == "later"));
    let e = CredStoreError::internal("bug".to_owned());
    assert!(matches!(e, CredStoreError::Internal(ref m) if m == "bug"));
}

#[test]
fn secret_ref_validation() {
    let ok = SecretRef::new("partner-openai-key".to_owned()).unwrap();
    assert_eq!(ok.name, "partner-openai-key");
    let err = SecretRef::new(String::new()).unwrap_err();
    assert!(matches!(err, CredStoreError::InvalidSecretRef { .. }));
}

#[test]
fn log_severity_distinguishes_not_found() {
    assert_eq!(log_severity(&DomainError::NotFound), LogSeverity::Debug);
    assert_eq!(
        log_severity(&DomainError::Internal("x".to_owned())),
        LogSeverity::Error
    );
    assert_eq!(
        log_severity(&DomainError::PluginNotFound { vendor: "acme".to_owned() }),
        LogSeverity::Error
    );
}

#[test]
fn local_client_converts_at_the_boundary() {
    let client = CredStoreLocalClient::new(Service::new("acme".to_owned()));
    assert!(client.svc.cached_plugin().is_none());

    let out = CredStoreLocalClient::convert_get_result(Ok(None));
    assert!(matches!(out, Ok(None)));

    let out = CredStoreLocalClient::convert_get_result(Err(DomainError::NotFound));
    assert!(matches!(out, Err(CredStoreError::NotFound)));

    let out = CredStoreLocalClient::convert_get_result(Err(DomainError::PluginNotFound {
        vendor: "acme".to_owned(),
    }));
    assert!(matches!(out, Err(CredStoreError::NoPluginAvailable)));
}
