use vstd::prelude::*;
use crate::records::{DesiredRecord, ProviderEntry, ReconciledRecord};

verus! {

/// A desired record and a provider record share the identity key (name, type).
pub open spec fn same_identity(d: DesiredRecord, e: ProviderEntry) -> bool {
    match e.record_type {
        Some(t) => e.name@ == d.name@ && t@ == d.record_type@,
        None => false,
    }
}

/// The identifier of the last provider record with the identity key of `d`.
pub open spec fn matched_id(d: DesiredRecord, existing: Seq<ProviderEntry>) -> Option<String>
    decreases existing.len(),
{
    if existing.len() == 0 {
        None
    } else if same_identity(d, existing.last()) {
        Some(existing.last().id)
    } else {
        matched_id(d, existing.drop_last())
    }
}

/// `d` as an update of its matched record, or as a creation when none matches.
pub open spec fn reconciled_of(d: DesiredRecord, existing: Seq<ProviderEntry>) -> ReconciledRecord {
    match matched_id(d, existing) {
        Some(id) => ReconciledRecord::Update { id, record: d },
        None => ReconciledRecord::Create { record: d },
    }
}

/// One reconciled record for each desired record, in the order of `desired`.
pub open spec fn reconcile_spec(desired: Seq<DesiredRecord>, existing: Seq<ProviderEntry>) -> Seq<
    ReconciledRecord,
> {
    desired.map_values(|d: DesiredRecord| reconciled_of(d, existing))
}

/// Whether `e` has the identity key of `d`.
pub fn identity_matches(d: &DesiredRecord, e: &ProviderEntry) -> (r: bool)
    ensures
        r == same_identity(*d, *e),
{
    match &e.record_type {
        Some(t) => e.name == d.name && *t == d.record_type,
        None => false,
    }
}

/// The index of the last record of `existing` with the identity key of `d`.
fn find_last_match(d: &DesiredRecord, existing: &Vec<ProviderEntry>) -> (r: Option<usize>)
    ensures
        match r {
            Some(j) => j < existing@.len() && matched_id(*d, existing@) == Some(existing@[j as int].id),
            None => matched_id(*d, existing@) is None,
        },
{
    let mut j: usize = existing.len();
    assert(existing@.subrange(0, j as int) == existing@);
    while j > 0
        invariant
            j <= existing@.len(),
            matched_id(*d, existing@) == matched_id(*d, existing@.subrange(0, j as int)),
        decreases j,
    {
        let prefix = Ghost(existing@.subrange(0, j as int));
        assert(prefix@.drop_last() == existing@.subrange(0, j - 1));
        if identity_matches(d, &existing[j - 1]) {
            return Some(j - 1);
        }
        j = j - 1;
    }
    None
}

/// Matches each desired record to the provider's records by identity key.
/// A match makes an update that keeps the provider's identifier and takes every
/// value from the desired record; no match makes a creation. When several
/// provider records share a key, the last one wins.
pub fn reconcile(desired: &Vec<DesiredRecord>, existing: &Vec<ProviderEntry>) -> (r: Vec<
    ReconciledRecord,
>)
    ensures
        r@ == reconcile_spec(desired@, existing@),
        r@.len() == desired@.len(),
{
    let mut out: Vec<ReconciledRecord> = Vec::new();
    let mut i: usize = 0;
    while i < desired.len()
        invariant
            i <= desired@.len(),
            out@ == reconcile_spec(desired@.subrange(0, i as int), existing@),
        decreases desired@.len() - i,
    {
        let d = &desired[i];
        let item = match find_last_match(d, existing) {
            Some(j) => ReconciledRecord::Update { id: existing[j].id.clone(), record: d.copy() },
            None => ReconciledRecord::Create { record: d.copy() },
        };
        out.push(item);
        i = i + 1;
        assert(out@ =~= reconcile_spec(desired@.subrange(0, i as int), existing@));
    }
    assert(desired@.subrange(0, i as int) == desired@);
    out
}

/// `matched_id` gives an identifier exactly when some record has the key.
pub proof fn lemma_matched_id_exists(d: DesiredRecord, existing: Seq<ProviderEntry>)
    ensures
        matched_id(d, existing) is Some <==> exists|j: int|
            0 <= j < existing.len() && #[trigger] same_identity(d, existing[j]),
    decreases existing.len(),
{
    if existing.len() > 0 {
        let rest = existing.drop_last();
        let n = existing.len() - 1;
        if !same_identity(d, existing[n]) {
            lemma_matched_id_exists(d, rest);
            if exists|j: int| 0 <= j < existing.len() && #[trigger] same_identity(d, existing[j]) {
                let j = choose|j: int|
                    0 <= j < existing.len() && #[trigger] same_identity(d, existing[j]);
                assert(rest[j] == existing[j]);
                assert(same_identity(d, rest[j]));
            }
            if exists|j: int| 0 <= j < rest.len() && #[trigger] same_identity(d, rest[j]) {
                let j = choose|j: int| 0 <= j < rest.len() && #[trigger] same_identity(d, rest[j]);
                assert(rest[j] == existing[j]);
                assert(same_identity(d, existing[j]));
            }
        }
    }
}

/// `matched_id` gives the identifier of the last record with the key.
pub proof fn lemma_matched_id_last(d: DesiredRecord, existing: Seq<ProviderEntry>, j: int)
    requires
        0 <= j < existing.len(),
        same_identity(d, existing[j]),
        forall|k: int| j < k < existing.len() ==> !same_identity(d, #[trigger] existing[k]),
    ensures
        matched_id(d, existing) == Some(existing[j].id),
    decreases existing.len(),
{
    let n = existing.len() - 1;
    if j < n {
        assert(!same_identity(d, existing[n]));
        let rest = existing.drop_last();
        assert(rest[j] == existing[j]);
        assert forall|k: int| j < k < rest.len() implies !same_identity(d, #[trigger] rest[k]) by {
            assert(rest[k] == existing[k]);
        }
        lemma_matched_id_last(d, rest, j);
    }
}

/// Reconciling the same inputs twice gives the same records: the result is a
/// function of `desired` and `existing` alone.
pub proof fn lemma_reconcile_repeatable(
    desired: Seq<DesiredRecord>,
    existing: Seq<ProviderEntry>,
    first: Seq<ReconciledRecord>,
    second: Seq<ReconciledRecord>,
)
    requires
        first == reconcile_spec(desired, existing),
        second == reconcile_spec(desired, existing),
    ensures
        first == second,
{
}

/// The reconciled record for the desired record at `i` carries the identifier of
/// a provider record exactly when one has the same name and type; it carries that
/// of the last such record (the only one when keys are unique), and it always
/// writes the desired values.
pub proof fn lemma_identity(desired: Seq<DesiredRecord>, existing: Seq<ProviderEntry>, i: int)
    requires
        0 <= i < desired.len(),
    ensures
        reconcile_spec(desired, existing)[i].spec_record() == desired[i],
        reconcile_spec(desired, existing)[i].spec_id() is Some <==> exists|j: int|
            0 <= j < existing.len() && #[trigger] same_identity(desired[i], existing[j]),
        forall|j: int|
            0 <= j < existing.len() && #[trigger] same_identity(desired[i], existing[j]) && (forall|
                k: int,
            | j < k < existing.len() ==> !same_identity(desired[i], existing[k]))
                ==> reconcile_spec(desired, existing)[i].spec_id() == Some(existing[j].id),
{
    let d = desired[i];
    lemma_matched_id_exists(d, existing);
    assert forall|j: int|
        0 <= j < existing.len() && #[trigger] same_identity(d, existing[j]) && (forall|k: int|
            j < k < existing.len() ==> !same_identity(d, existing[k])) implies reconcile_spec(
        desired,
        existing,
    )[i].spec_id() == Some(existing[j].id) by {
        lemma_matched_id_last(d, existing, j);
    }
}

/// Every desired record yields exactly one reconciled record, in its place.
pub proof fn lemma_coverage(desired: Seq<DesiredRecord>, existing: Seq<ProviderEntry>)
    ensures
        reconcile_spec(desired, existing).len() == desired.len(),
        forall|i: int|
            0 <= i < desired.len() ==> (#[trigger] reconcile_spec(desired, existing)[i]).spec_record()
                == desired[i],
{
}

/// With no provider records, every desired record is a creation.
pub proof fn lemma_nothing_existing(desired: Seq<DesiredRecord>)
    ensures
        forall|i: int|
            0 <= i < desired.len() ==> #[trigger] reconcile_spec(desired, seq![])[i]
                == (ReconciledRecord::Create { record: desired[i] }),
{
}

} // verus!
