//! Plugin resolution: choosing which registered backend instance serves
//! the configured vendor.
//!
//! The type registry hands back candidate entries `(identifier, content)`.
//! An entry is a candidate when its identifier starts with the plugin
//! contract's schema identifier; among candidates, the first (in registry
//! order) whose content declares the requested vendor is chosen — a
//! deterministic policy for the ambiguous multi-match case. A candidate
//! whose content cannot be parsed, or that lacks a string `vendor` member,
//! is a configuration error and fails resolution outright.

use vstd::prelude::*;

use crate::errors::DomainError;

verus! {

/// Plugin contract marker for the secret-store backend schema.
pub struct CredStorePluginSpecV1;

/// The schema identifier that every backend plugin instance of this
/// contract registers under.
pub open spec fn spec_schema_id() -> Seq<char> {
    "gts.x.core.modkit.plugin.v1~x.core.credstore.plugin.v1~"@
}

impl CredStorePluginSpecV1 {
    /// The schema identifier of the plugin contract, used both to register
    /// the schema and as the prefix pattern when listing instances.
    pub fn gts_schema_id() -> (r: &'static str)
        ensures
            r@ == spec_schema_id(),
    {
        "gts.x.core.modkit.plugin.v1~x.core.credstore.plugin.v1~"
    }
}

/// One entry returned by the type registry: an instance identifier and the
/// instance's content document.
#[derive(Debug, Clone)]
pub struct RegistryEntry {
    pub gts_id: String,
    pub content: String,
}

/// `p` is a prefix of `s`.
pub open spec fn spec_starts_with(s: Seq<char>, p: Seq<char>) -> bool {
    p.len() <= s.len() && s.subrange(0, p.len() as int) == p
}

/// Character-by-character prefix test.
pub fn str_starts_with(s: &str, prefix: &str) -> (b: bool)
    ensures
        b == spec_starts_with(s@, prefix@),
{
    let n = prefix.unicode_len();
    let sn = s.unicode_len();
    if n > sn {
        return false;
    }
    let mut i: usize = 0;
    while i < n
        invariant
            i <= n,
            n == prefix@.len(),
            sn == s@.len(),
            n <= sn,
            forall|j: int| 0 <= j < i ==> s@[j] == prefix@[j],
        decreases n - i,
    {
        if s.get_char(i) != prefix.get_char(i) {
            assert(s@.subrange(0, n as int)[i as int] == s@[i as int]);
            return false;
        }
        i += 1;
    }
    assert(s@.subrange(0, n as int) =~= prefix@);
    true
}

/// The string value of the `vendor` member, when `content` parses as a
/// JSON object that has one; `None` for unparsable content, for a missing
/// member, and for a non-string member. A function of the text alone.
pub uninterp spec fn spec_vendor_field(content: Seq<char>) -> Option<Seq<char>>;

/// Relies on serde_json::from_str, serde_json::Value::get and
/// serde_json::Value::as_str: parses `content` as JSON and reads the
/// string value of the object's `vendor` member; any failure along the
/// way (unparsable text, not an object, member absent or not a string)
/// yields `None`. The result depends on `content` alone.
#[verifier::external_body]
fn vendor_field(content: &str) -> (r: Option<String>)
    ensures
        r is Some <==> spec_vendor_field(content@) is Some,
        r matches Some(v) ==> spec_vendor_field(content@) == Option::Some(v@),
{
    match serde_json::from_str::<serde_json::Value>(content) {
        Ok(doc) => match doc.get("vendor") {
            Some(member) => match member.as_str() {
                Some(v) => Some(v.to_owned()),
                None => None,
            },
            None => None,
        },
        Err(_) => None,
    }
}

/// Whether an entry belongs to this plugin contract: its identifier starts
/// with the contract's schema identifier.
pub open spec fn spec_candidate(e: RegistryEntry) -> bool {
    spec_starts_with(e.gts_id@, spec_schema_id())
}

/// Outcome of scanning the registry listing for the requested vendor.
pub enum Resolution {
    /// The first candidate declaring the vendor, by identifier.
    Chosen { gts_id: Seq<char> },
    /// A candidate whose content has no usable `vendor` member; its
    /// identifier, for the configuration error.
    Malformed { gts_id: Seq<char> },
    /// No candidate declares the vendor.
    NoVendorMatch,
}

/// Scans the entries in registry order: non-candidates are skipped, the
/// first candidate declaring `vendor` wins, and a candidate with no usable
/// `vendor` member stops the scan as a configuration error.
pub open spec fn spec_resolve(vendor: Seq<char>, entries: Seq<RegistryEntry>) -> Resolution
    decreases entries.len(),
{
    if entries.len() == 0 {
        Resolution::NoVendorMatch
    } else if spec_candidate(entries[0]) {
        match spec_vendor_field(entries[0].content@) {
            Option::Some(v) => if v == vendor {
                Resolution::Chosen { gts_id: entries[0].gts_id@ }
            } else {
                spec_resolve(vendor, entries.skip(1))
            },
            Option::None => Resolution::Malformed { gts_id: entries[0].gts_id@ },
        }
    } else {
        spec_resolve(vendor, entries.skip(1))
    }
}

/// What each `spec_resolve` outcome means as a caller-visible result.
pub open spec fn spec_resolution_result(
    vendor: Seq<char>,
    entries: Seq<RegistryEntry>,
    r: Result<String, DomainError>,
) -> bool {
    match spec_resolve(vendor, entries) {
        Resolution::Chosen { gts_id } => r matches Ok(id) && id@ == gts_id,
        Resolution::Malformed { gts_id } => r matches Err(e) && (e
            matches DomainError::InvalidPluginInstance { gts_id: g, reason } && g@ == gts_id
            && reason@ == "missing or non-string 'vendor' in instance content"@),
        Resolution::NoVendorMatch => r matches Err(e) && (e matches DomainError::PluginNotFound {
            vendor: v,
        } && v@ == vendor),
    }
}

/// Selects the plugin instance serving `vendor` from a registry listing.
///
/// Succeeds with the identifier of the first candidate entry whose content
/// declares `vendor`; fails with `PluginNotFound` when no candidate does,
/// and with `InvalidPluginInstance` when a candidate's content reached
/// before any match has no usable `vendor` member.
pub fn choose_plugin_instance(vendor: &str, entries: &Vec<RegistryEntry>) -> (r: Result<
    String,
    DomainError,
>)
    ensures
        spec_resolution_result(vendor@, entries@, r),
{
    let schema_id = CredStorePluginSpecV1::gts_schema_id();
    let vendor_owned: String = vendor.to_owned();
    let n = entries.len();
    let mut i: usize = 0;
    assert(entries@.skip(0) =~= entries@);
    while i < n
        invariant
            i <= n,
            n == entries@.len(),
            schema_id@ == spec_schema_id(),
            vendor_owned@ == vendor@,
            spec_resolve(vendor@, entries@) == spec_resolve(vendor@, entries@.skip(i as int)),
        decreases n - i,
    {
        let ghost rest = entries@.skip(i as int);
        assert(rest[0] == entries@[i as int]);
        assert(rest.skip(1) =~= entries@.skip(i as int + 1));
        let entry = &entries[i];
        if str_starts_with(entry.gts_id.as_str(), schema_id) {
            match vendor_field(entry.content.as_str()) {
                Option::Some(v) => {
                    if v == vendor_owned {
                        return Ok(entry.gts_id.clone());
                    }
                },
                Option::None => {
                    return Err(
                        DomainError::InvalidPluginInstance {
                            gts_id: entry.gts_id.clone(),
                            reason: "missing or non-string 'vendor' in instance content".to_owned(),
                        },
                    );
                },
            }
        }
        i += 1;
    }
    assert(entries@.skip(n as int) =~= Seq::<RegistryEntry>::empty());
    Err(DomainError::PluginNotFound { vendor: vendor.to_owned() })
}

} // verus!
