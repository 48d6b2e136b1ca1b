//! The Cloudflare provider: one call publishes the update's addresses to
//! every configured domain of one zone. The call first resolves the zone
//! identifier, then for each domain and address family lists the existing DNS
//! records and either updates the first listed record or creates one. The
//! HTTP requests run outside; this module fixes the URLs, the request bodies
//! and what each response means.

use vstd::prelude::*;

use crate::record::IpAddress;

verus! {

/// One domain the provider manages inside its zone.
#[derive(Debug, Clone)]
pub struct Domain {
    pub name: String,
    /// Record time-to-live; 1 selects Cloudflare's automatic setting.
    pub ttl: u32,
    /// Whether Cloudflare proxies the record.
    pub proxied: bool,
    /// Comment stored on the record.
    pub comment: String,
}

/// Configuration of one Cloudflare provider.
#[derive(Debug, Clone)]
pub struct Cloudflare {
    pub zone: String,
    pub api_token: String,
    pub domains: Vec<Domain>,
    pub api_url: String,
}

/// The API endpoint used when none is configured.
pub fn default_api_url() -> (s: String)
    ensures
        s@ == "https://api.cloudflare.com/client/v4"@,
{
    "https://api.cloudflare.com/client/v4".to_owned()
}

/// The record TTL used when none is configured; 1 is Cloudflare's automatic
/// setting.
pub fn default_ttl() -> (t: u32)
    ensures
        t == 1,
{
    1
}

/// The record comment used when none is configured.
pub fn default_comment() -> (s: String)
    ensures
        s@ == "Created by DDRS"@,
{
    "Created by DDRS".to_owned()
}

/// Why a Cloudflare call failed, each carrying what its log line names.
#[derive(Debug, Clone)]
pub enum CloudflareError {
    /// The zone listing returned no result set, typically a bad token.
    ZoneListFailed,
    /// The zone listing succeeded but matched no zone.
    NoMatchingZone,
    /// The record listing for the named domain returned no result set.
    RecordListFailed(String),
    /// Updating the named domain's record was not successful.
    UpdateFailed(String),
    /// Creating the named domain's record was not successful.
    CreateFailed(String),
}

/// The message a failed call reports.
pub open spec fn spec_cloudflare_error_message(e: CloudflareError) -> Seq<char> {
    match e {
        CloudflareError::ZoneListFailed => "Failed to list Cloudflare zones, is your token valid?"@,
        CloudflareError::NoMatchingZone => "Failed to find a matching Cloudflare zone"@,
        CloudflareError::RecordListFailed(name) => "Failed to list Cloudflare DNS records for "@
            + name@,
        CloudflareError::UpdateFailed(name) => "Failed to update Cloudflare domain ("@ + name@
            + ") record"@,
        CloudflareError::CreateFailed(name) => "Failed to create Cloudflare domain ("@ + name@
            + ") record"@,
    }
}

impl CloudflareError {
    /// Renders the failure for logging.
    pub fn message(&self) -> (m: String)
        ensures
            m@ == spec_cloudflare_error_message(*self),
    {
        match self {
            CloudflareError::ZoneListFailed => {
                "Failed to list Cloudflare zones, is your token valid?".to_owned()
            },
            CloudflareError::NoMatchingZone => {
                "Failed to find a matching Cloudflare zone".to_owned()
            },
            CloudflareError::RecordListFailed(name) => {
                "Failed to list Cloudflare DNS records for ".to_owned().concat(name.as_str())
            },
            CloudflareError::UpdateFailed(name) => {
                "Failed to update Cloudflare domain (".to_owned().concat(name.as_str()).concat(
                    ") record",
                )
            },
            CloudflareError::CreateFailed(name) => {
                "Failed to create Cloudflare domain (".to_owned().concat(name.as_str()).concat(
                    ") record",
                )
            },
        }
    }
}

/// The URL that lists the zones of an account.
pub fn zones_url(api_url: &str) -> (u: String)
    ensures
        u@ == api_url@ + "/zones"@,
{
    api_url.to_owned().concat("/zones")
}

/// The URL that lists or creates DNS records of a zone.
pub fn dns_records_url(api_url: &str, zone_id: &str) -> (u: String)
    ensures
        u@ == api_url@ + "/zones/"@ + zone_id@ + "/dns_records"@,
{
    api_url.to_owned().concat("/zones/").concat(zone_id).concat("/dns_records")
}

/// The URL of one DNS record of a zone.
pub fn dns_record_url(api_url: &str, zone_id: &str, record_id: &str) -> (u: String)
    ensures
        u@ == api_url@ + "/zones/"@ + zone_id@ + "/dns_records/"@ + record_id@,
{
    api_url.to_owned().concat("/zones/").concat(zone_id).concat("/dns_records/").concat(record_id)
}

/// Resolves the zone identifier from the zone listing's result set: no result
/// set means the listing itself failed (typically a bad token), an empty one
/// matched no zone, and otherwise the first zone's identifier is used.
pub fn zone_id_from_list(result: Option<Vec<String>>) -> (r: Result<String, CloudflareError>)
    ensures
        result is None ==> (r matches Err(e) && e is ZoneListFailed),
        result matches Some(ids) ==> (ids@.len() == 0 ==> (r matches Err(e)
            && e is NoMatchingZone)),
        result matches Some(ids) ==> (ids@.len() > 0 ==> (r matches Ok(id) && id == ids@[0])),
{
    match result {
        None => Err(CloudflareError::ZoneListFailed),
        Some(ids) => {
            if ids.len() == 0 {
                Err(CloudflareError::NoMatchingZone)
            } else {
                Ok(ids[0].clone())
            }
        },
    }
}

/// Resolves the record listing's result set for one domain: no result set
/// means the listing failed; otherwise the listed identifiers are returned,
/// an empty list included (it means a record must be created).
pub fn records_from_list(result: Option<Vec<String>>, domain_name: &String) -> (r: Result<
    Vec<String>,
    CloudflareError,
>)
    ensures
        result is None ==> (r matches Err(e) && e matches CloudflareError::RecordListFailed(n)
            && n@ == domain_name@),
        result matches Some(ids) ==> (r matches Ok(out) && out == ids),
{
    match result {
        None => Err(CloudflareError::RecordListFailed(domain_name.clone())),
        Some(ids) => Ok(ids),
    }
}

/// The body of an update or create request for one record.
#[derive(Debug, Clone)]
pub struct RecordBody {
    /// "A" or "AAAA", after the address family.
    pub record_type: String,
    /// The domain name the record belongs to.
    pub name: String,
    /// The address published as the record's content.
    pub content: IpAddress,
    pub ttl: u32,
    pub proxied: bool,
    pub comment: String,
}

/// Builds the request body that publishes an address for a domain.
pub fn record_body(domain: &Domain, addr: &IpAddress) -> (b: RecordBody)
    ensures
        b.record_type@ == crate::providers::spec_record_type_label(addr.spec_version()),
        b.name@ == domain.name@,
        b.content == *addr,
        b.ttl == domain.ttl,
        b.proxied == domain.proxied,
        b.comment@ == domain.comment@,
{
    RecordBody {
        record_type: crate::providers::record_type_label(&addr.version()),
        name: domain.name.clone(),
        content: *addr,
        ttl: domain.ttl,
        proxied: domain.proxied,
        comment: domain.comment.clone(),
    }
}

/// Reads an update response's success flag: a response that is not successful
/// fails the call for that domain.
pub fn update_record_result(success: bool, domain_name: &String) -> (r: Result<
    (),
    CloudflareError,
>)
    ensures
        success ==> r is Ok,
        !success ==> (r matches Err(e) && e matches CloudflareError::UpdateFailed(n) && n@
            == domain_name@),
{
    if success {
        Ok(())
    } else {
        Err(CloudflareError::UpdateFailed(domain_name.clone()))
    }
}

/// Reads a create response's success flag: a response that is not successful
/// fails the call for that domain.
pub fn create_record_result(success: bool, domain_name: &String) -> (r: Result<
    (),
    CloudflareError,
>)
    ensures
        success ==> r is Ok,
        !success ==> (r matches Err(e) && e matches CloudflareError::CreateFailed(n) && n@
            == domain_name@),
{
    if success {
        Ok(())
    } else {
        Err(CloudflareError::CreateFailed(domain_name.clone()))
    }
}

} // verus!
