use vstd::prelude::*;
use crate::records::{ProviderEntry, SyncError, Zone};

verus! {

/// A provider answer: its top-level success flag and its `result` listing.
#[derive(Clone, Debug, PartialEq, Eq)]
pub struct ProviderResponse {
    pub success: bool,
    pub result: Vec<ProviderEntry>,
}

/// Whether `name` is one of `domains`.
pub open spec fn is_requested(domains: Seq<String>, name: Seq<char>) -> bool {
    exists|i: int| 0 <= i < domains.len() && (#[trigger] domains[i])@ == name
}

/// Whether a listed zone is a candidate: its name is requested and its type is
/// the record family of this run.
pub open spec fn is_candidate(domains: Seq<String>, record_type: Seq<char>, e: ProviderEntry) -> bool {
    is_requested(domains, e.name@) && match e.record_type {
        Some(t) => t@ == record_type,
        None => false,
    }
}

/// The candidate zones of a listing, in its order.
pub open spec fn zones_of(entries: Seq<ProviderEntry>, domains: Seq<String>, record_type: Seq<char>) -> Seq<
    Zone,
>
    decreases entries.len(),
{
    if entries.len() == 0 {
        seq![]
    } else {
        let front = zones_of(entries.drop_last(), domains, record_type);
        let e = entries.last();
        if is_candidate(domains, record_type, e) {
            front.push(Zone { id: e.id, name: e.name })
        } else {
            front
        }
    }
}

/// Whether `name` is one of `domains`.
pub fn contains_name(domains: &Vec<String>, name: &String) -> (r: bool)
    ensures
        r == is_requested(domains@, name@),
{
    let mut i: usize = 0;
    while i < domains.len()
        invariant
            i <= domains@.len(),
            forall|k: int| 0 <= k < i ==> (#[trigger] domains@[k])@ != name@,
        decreases domains@.len() - i,
    {
        if domains[i] == *name {
            return true;
        }
        i = i + 1;
    }
    false
}

/// The zones of a zone listing whose name is among `domains` and whose type is
/// `record_type`, in the listing's order. A listing that the provider marks as
/// failed is the error, with its raw body.
pub fn select_zones(
    response: &ProviderResponse,
    raw: &String,
    domains: &Vec<String>,
    record_type: &String,
) -> (r: Result<Vec<Zone>, SyncError>)
    ensures
        response.success <==> r is Ok,
        r matches Ok(z) ==> z@ == zones_of(response.result@, domains@, record_type@),
        r matches Err(e) ==> e == (SyncError::Provider { body: *raw }),
{
    if !response.success {
        return Err(SyncError::Provider { body: raw.clone() });
    }
    let entries = &response.result;
    let mut out: Vec<Zone> = Vec::new();
    let mut i: usize = 0;
    while i < entries.len()
        invariant
            i <= entries@.len(),
            out@ == zones_of(entries@.subrange(0, i as int), domains@, record_type@),
        decreases entries@.len() - i,
    {
        let ghost after = entries@.subrange(0, i + 1);
        assert(after.drop_last() == entries@.subrange(0, i as int));
        let e = &entries[i];
        let type_ok = match &e.record_type {
            Some(t) => *t == *record_type,
            None => false,
        };
        if type_ok && contains_name(domains, &e.name) {
            out.push(Zone { id: e.id.clone(), name: e.name.clone() });
        }
        i = i + 1;
    }
    assert(entries@.subrange(0, i as int) == entries@);
    Ok(out)
}

/// Resolves the zones of `domains` from a zone listing. Fewer zones than
/// domains is a resolution gap: the run cannot reconcile every domain and fails.
pub fn resolve_zones(
    response: &ProviderResponse,
    raw: &String,
    domains: &Vec<String>,
    record_type: &String,
) -> (r: Result<Vec<Zone>, SyncError>)
    ensures
        !response.success ==> r == Err::<Vec<Zone>, SyncError>(SyncError::Provider { body: *raw }),
        response.success ==> {
            let z = zones_of(response.result@, domains@, record_type@);
            &&& z.len() < domains@.len() ==> r == Err::<Vec<Zone>, SyncError>(
                SyncError::ResolutionGap { requested: domains@.len() as usize, resolved: z.len() as usize },
            )
            &&& z.len() >= domains@.len() ==> (r matches Ok(v) && v@ == z)
        },
{
    let zones = select_zones(response, raw, domains, record_type)?;
    if zones.len() < domains.len() {
        return Err(SyncError::ResolutionGap { requested: domains.len(), resolved: zones.len() });
    }
    Ok(zones)
}

/// The records of a zone listing, every type included; a listing that the
/// provider marks as failed is the error, with its raw body.
pub fn existing_records(response: ProviderResponse, raw: &String) -> (r: Result<
    Vec<ProviderEntry>,
    SyncError,
>)
    ensures
        response.success ==> r == Ok::<Vec<ProviderEntry>, SyncError>(response.result),
        !response.success ==> r == Err::<Vec<ProviderEntry>, SyncError>(SyncError::Provider { body: *raw }),
{
    if response.success {
        Ok(response.result)
    } else {
        Err(SyncError::Provider { body: raw.clone() })
    }
}

} // verus!
