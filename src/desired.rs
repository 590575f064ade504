use vstd::prelude::*;
use crate::records::{AUTOMATIC_TTL, DesiredRecord, Zone};

verus! {

/// A configured domain and how it is forwarded.
#[derive(Clone, Debug, PartialEq, Eq)]
pub struct DomainPolicy {
    pub domain: String,
    /// The `ext:int` port mapping; carried along, not used for DNS.
    pub port_mapping: String,
    /// Whether the provider proxies the domain's traffic.
    pub use_tls: bool,
    /// The record's time to live; `None` leaves it automatic.
    pub ttl: Option<u32>,
}

/// The record that a policy asks for at `address`.
pub open spec fn desired_of(p: DomainPolicy, record_type: String, address: String) -> DesiredRecord {
    DesiredRecord {
        record_type,
        name: p.domain,
        content: address,
        ttl: match p.ttl {
            Some(t) => t,
            None => AUTOMATIC_TTL,
        },
        proxied: p.use_tls,
    }
}

/// One desired record for each policy, in order: of type `record_type`, named
/// after the policy's domain, pointing at `address`.
pub fn build_desired(policies: &Vec<DomainPolicy>, record_type: &String, address: &String) -> (r: Vec<
    DesiredRecord,
>)
    ensures
        r@.len() == policies@.len(),
        forall|i: int|
            0 <= i < policies@.len() ==> #[trigger] r@[i] == desired_of(
                policies@[i],
                *record_type,
                *address,
            ),
{
    let mut out: Vec<DesiredRecord> = Vec::new();
    let mut i: usize = 0;
    while i < policies.len()
        invariant
            i <= policies@.len(),
            out@.len() == i,
            forall|k: int|
                0 <= k < i ==> #[trigger] out@[k] == desired_of(policies@[k], *record_type, *address),
        decreases policies@.len() - i,
    {
        let p = &policies[i];
        let ttl = match p.ttl {
            Some(t) => t,
            None => AUTOMATIC_TTL,
        };
        out.push(
            DesiredRecord {
                record_type: record_type.clone(),
                name: p.domain.clone(),
                content: address.clone(),
                ttl,
                proxied: p.use_tls,
            },
        );
        i = i + 1;
    }
    out
}

/// The desired records named after `zone_name`, in order.
pub open spec fn records_in_zone_spec(desired: Seq<DesiredRecord>, zone_name: Seq<char>) -> Seq<
    DesiredRecord,
>
    decreases desired.len(),
{
    if desired.len() == 0 {
        seq![]
    } else {
        let front = records_in_zone_spec(desired.drop_last(), zone_name);
        if desired.last().name@ == zone_name {
            front.push(desired.last())
        } else {
            front
        }
    }
}

/// The desired records that belong to `zone`: those named as the zone is.
pub fn records_in_zone(desired: &Vec<DesiredRecord>, zone: &Zone) -> (r: Vec<DesiredRecord>)
    ensures
        r@ == records_in_zone_spec(desired@, zone.name@),
{
    let mut out: Vec<DesiredRecord> = Vec::new();
    let mut i: usize = 0;
    while i < desired.len()
        invariant
            i <= desired@.len(),
            out@ == records_in_zone_spec(desired@.subrange(0, i as int), zone.name@),
        decreases desired@.len() - i,
    {
        assert(desired@.subrange(0, i + 1).drop_last() == desired@.subrange(0, i as int));
        if desired[i].name == zone.name {
            out.push(desired[i].copy());
        }
        i = i + 1;
    }
    assert(desired@.subrange(0, i as int) == desired@);
    out
}

} // verus!
