//! What the DNS providers have in common: the record type label per address
//! family, the choice between updating an existing record and creating one,
//! and the plan of which (domain, address) pairs one provider call touches.
//! The HTTP requests themselves run outside; these functions fix what each
//! request says and what each response means.

pub mod cloudflare;
pub mod porkbun;

use vstd::prelude::*;

use crate::record::IpAddress;
use crate::record::IpUpdate;
use crate::record::IpVersion;

verus! {

/// The DNS record type a version's address is published under.
pub open spec fn spec_record_type_label(version: IpVersion) -> Seq<char> {
    match version {
        IpVersion::V4 => "A"@,
        IpVersion::V6 => "AAAA"@,
    }
}

/// Returns "A" for IPv4 and "AAAA" for IPv6.
pub fn record_type_label(version: &IpVersion) -> (s: String)
    ensures
        s@ == spec_record_type_label(*version),
{
    match version {
        IpVersion::V4 => "A".to_owned(),
        IpVersion::V6 => "AAAA".to_owned(),
    }
}

/// What to do with one DNS record once the provider has been asked which
/// records already exist.
#[derive(Debug, Clone)]
pub enum RecordAction {
    /// Update the existing record with this identifier.
    Update(String),
    /// No record exists; create one.
    Create,
}

/// Chooses the action from the identifiers a provider listed: update the
/// first listed record, or create one when none exists.
pub fn plan_record_action(ids: &Vec<String>) -> (a: RecordAction)
    ensures
        ids@.len() == 0 ==> a is Create,
        ids@.len() > 0 ==> (a matches RecordAction::Update(id) && id == ids@[0]),
{
    if ids.len() == 0 {
        RecordAction::Create
    } else {
        RecordAction::Update(ids[0].clone())
    }
}

/// One step of a provider's fan-out: publish one address for one of its
/// configured domains.
#[derive(Clone, Copy, Debug, PartialEq, Eq, Structural)]
pub struct UpdateTask {
    /// Index into the provider's domain list.
    pub domain: usize,
    /// The address family being published.
    pub version: IpVersion,
    /// The address itself.
    pub addr: IpAddress,
}

/// The tasks one domain contributes: one per address present in the update,
/// IPv4 first.
pub open spec fn spec_domain_tasks(domain: int, update: IpUpdate) -> Seq<UpdateTask> {
    (match update.v4 {
        Option::Some(a) => seq![
            UpdateTask { domain: domain as usize, version: IpVersion::V4, addr: IpAddress::V4(a) },
        ],
        Option::None => seq![],
    }) + (match update.v6 {
        Option::Some(b) => seq![
            UpdateTask { domain: domain as usize, version: IpVersion::V6, addr: IpAddress::V6(b) },
        ],
        Option::None => seq![],
    })
}

/// The tasks a provider performs for an update: every configured domain in
/// order, and for each the update's addresses, IPv4 first.
pub open spec fn spec_update_tasks(domain_count: nat, update: IpUpdate) -> Seq<UpdateTask>
    decreases domain_count,
{
    if domain_count == 0 {
        seq![]
    } else {
        spec_update_tasks((domain_count - 1) as nat, update) + spec_domain_tasks(
            domain_count - 1,
            update,
        )
    }
}

/// Lays out a provider's work for an update: for each configured domain in
/// order, one task per address present, IPv4 before IPv6. A domain list or an
/// update with nothing to publish yields no task.
pub fn plan_update_tasks(domain_count: usize, update: &IpUpdate) -> (tasks: Vec<UpdateTask>)
    ensures
        tasks@ == spec_update_tasks(domain_count as nat, *update),
{
    let mut tasks: Vec<UpdateTask> = Vec::new();
    let mut d: usize = 0;
    while d < domain_count
        invariant
            0 <= d <= domain_count,
            tasks@ == spec_update_tasks(d as nat, *update),
        decreases domain_count - d,
    {
        if let Some(a) = update.v4 {
            tasks.push(UpdateTask { domain: d, version: IpVersion::V4, addr: IpAddress::V4(a) });
        }
        if let Some(b) = update.v6 {
            tasks.push(UpdateTask { domain: d, version: IpVersion::V6, addr: IpAddress::V6(b) });
        }
        d += 1;
        proof {
            assert(tasks@ =~= spec_update_tasks(d as nat, *update));
        }
    }
    tasks
}

} // verus!
