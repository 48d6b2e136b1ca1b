//! The Porkbun provider: one call publishes the update's addresses to every
//! configured domain. For each domain and address family it retrieves the
//! existing records by name and type and either edits the first listed record
//! or creates one. The HTTP requests run outside; this module fixes the URLs,
//! the request bodies and what each response status means.

use vstd::prelude::*;

use crate::record::IpAddress;

verus! {

/// One domain the provider manages, with an optional subdomain.
#[derive(Debug, Clone)]
pub struct Domain {
    pub name: String,
    pub subdomain: Option<String>,
    pub ttl: u32,
    /// Note stored on the record.
    pub notes: String,
}

/// Configuration of one Porkbun provider. The two keys are held as plain
/// strings here; the owning process keeps its own guarded copies.
#[derive(Debug, Clone)]
pub struct Porkbun {
    pub api_key: String,
    pub secret_api_key: String,
    pub api_url: String,
    pub domains: Vec<Domain>,
}

/// The API endpoint used when none is configured.
pub fn default_api_url() -> (s: String)
    ensures
        s@ == "https://api.porkbun.com/api/json/v3"@,
{
    "https://api.porkbun.com/api/json/v3".to_owned()
}

/// The record TTL used when none is configured.
pub fn default_ttl() -> (t: u32)
    ensures
        t == 600,
{
    600
}

/// Why a Porkbun call failed, each carrying the domain its log line names.
#[derive(Debug, Clone)]
pub enum PorkbunError {
    /// The record retrieval for the named domain reported an error status.
    ListFailed(String),
    /// The retrieval succeeded but carried no record list at all.
    NoRecords(String),
    /// Editing the named domain's record reported an error status.
    UpdateFailed(String),
    /// Creating the named domain's record reported an error status.
    CreateFailed(String),
}

/// The message a failed call reports; the caller appends the message text the
/// API returned, when there is one.
pub open spec fn spec_porkbun_error_message(e: PorkbunError) -> Seq<char> {
    match e {
        PorkbunError::ListFailed(name) => "Failed to list Porkbun domain ("@ + name@
            + ") records"@,
        PorkbunError::NoRecords(name) => "No Porkbun records found for domain ("@ + name@ + ")"@,
        PorkbunError::UpdateFailed(name) => "Failed to update Porkbun domain ("@ + name@
            + ") record"@,
        PorkbunError::CreateFailed(name) => "Failed to create Porkbun domain ("@ + name@
            + ") record"@,
    }
}

impl PorkbunError {
    /// Renders the failure for logging.
    pub fn message(&self) -> (m: String)
        ensures
            m@ == spec_porkbun_error_message(*self),
    {
        match self {
            PorkbunError::ListFailed(name) => {
                "Failed to list Porkbun domain (".to_owned().concat(name.as_str()).concat(
                    ") records",
                )
            },
            PorkbunError::NoRecords(name) => {
                "No Porkbun records found for domain (".to_owned().concat(name.as_str()).concat(
                    ")",
                )
            },
            PorkbunError::UpdateFailed(name) => {
                "Failed to update Porkbun domain (".to_owned().concat(name.as_str()).concat(
                    ") record",
                )
            },
            PorkbunError::CreateFailed(name) => {
                "Failed to create Porkbun domain (".to_owned().concat(name.as_str()).concat(
                    ") record",
                )
            },
        }
    }
}

/// The URL that retrieves a domain's records by name and type, with the
/// subdomain as one more path segment when one is configured.
pub fn retrieve_records_url(
    api_url: &str,
    domain_name: &str,
    record_type: &str,
    subdomain: &Option<String>,
) -> (u: String)
    ensures
        u@ == api_url@ + "/dns/retrieveByNameType/"@ + domain_name@ + "/"@ + record_type@ + (
        match *subdomain {
            Option::Some(s) => "/"@ + s@,
            Option::None => Seq::<char>::empty(),
        }),
{
    let base = api_url.to_owned().concat("/dns/retrieveByNameType/").concat(domain_name).concat(
        "/",
    ).concat(record_type);
    match subdomain {
        Some(s) => base.concat("/").concat(s.as_str()),
        None => {
            proof {
                assert(base@ =~= base@ + Seq::<char>::empty());
            }
            base
        },
    }
}

/// The URL that edits one record of a domain.
pub fn edit_record_url(api_url: &str, domain_name: &str, record_id: &str) -> (u: String)
    ensures
        u@ == api_url@ + "/dns/edit/"@ + domain_name@ + "/"@ + record_id@,
{
    api_url.to_owned().concat("/dns/edit/").concat(domain_name).concat("/").concat(record_id)
}

/// The URL that creates a record of a domain.
pub fn create_record_url(api_url: &str, domain_name: &str) -> (u: String)
    ensures
        u@ == api_url@ + "/dns/create/"@ + domain_name@,
{
    api_url.to_owned().concat("/dns/create/").concat(domain_name)
}

/// Resolves a retrieval response: an error status fails the call for that
/// domain, a success without a record list is reported distinctly, and
/// otherwise the listed record identifiers are returned, an empty list
/// included (it means a record must be created).
pub fn records_from_response(
    status_success: bool,
    records: Option<Vec<String>>,
    domain_name: &String,
) -> (r: Result<Vec<String>, PorkbunError>)
    ensures
        !status_success ==> (r matches Err(e) && e matches PorkbunError::ListFailed(n) && n@
            == domain_name@),
        (status_success && records is None) ==> (r matches Err(e) && e matches
            PorkbunError::NoRecords(n) && n@ == domain_name@),
        records matches Some(ids) ==> (status_success ==> (r matches Ok(out) && out == ids)),
{
    if !status_success {
        Err(PorkbunError::ListFailed(domain_name.clone()))
    } else {
        match records {
            Some(ids) => Ok(ids),
            None => Err(PorkbunError::NoRecords(domain_name.clone())),
        }
    }
}

/// Reads an edit response's status: an error status fails the call for that
/// domain.
pub fn update_record_result(status_success: bool, domain_name: &String) -> (r: Result<
    (),
    PorkbunError,
>)
    ensures
        status_success ==> r is Ok,
        !status_success ==> (r matches Err(e) && e matches PorkbunError::UpdateFailed(n) && n@
            == domain_name@),
{
    if status_success {
        Ok(())
    } else {
        Err(PorkbunError::UpdateFailed(domain_name.clone()))
    }
}

/// Reads a create response's status: an error status fails the call for that
/// domain.
pub fn create_record_result(status_success: bool, domain_name: &String) -> (r: Result<
    (),
    PorkbunError,
>)
    ensures
        status_success ==> r is Ok,
        !status_success ==> (r matches Err(e) && e matches PorkbunError::CreateFailed(n) && n@
            == domain_name@),
{
    if status_success {
        Ok(())
    } else {
        Err(PorkbunError::CreateFailed(domain_name.clone()))
    }
}

/// The body of an edit or create request for one record.
#[derive(Debug, Clone)]
pub struct RecordBody {
    /// "A" or "AAAA", after the address family.
    pub record_type: String,
    /// The address published as the record's content.
    pub content: IpAddress,
    pub ttl: u32,
    /// The subdomain, when one is configured.
    pub name: Option<String>,
    pub notes: String,
}

/// Builds the request body that publishes an address for a domain.
pub fn record_body(domain: &Domain, addr: &IpAddress) -> (b: RecordBody)
    ensures
        b.record_type@ == crate::providers::spec_record_type_label(addr.spec_version()),
        b.content == *addr,
        b.ttl == domain.ttl,
        match (b.name, domain.subdomain) {
            (Option::Some(s), Option::Some(d)) => s@ == d@,
            (Option::None, Option::None) => true,
            _ => false,
        },
        b.notes@ == domain.notes@,
{
    RecordBody {
        record_type: crate::providers::record_type_label(&addr.version()),
        content: *addr,
        ttl: domain.ttl,
        name: match &domain.subdomain {
            Some(s) => Some(s.clone()),
            None => None,
        },
        notes: domain.notes.clone(),
    }
}

} // verus!
