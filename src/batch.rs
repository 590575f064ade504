use vstd::prelude::*;
use crate::records::{DesiredRecord, ReconciledRecord, SyncError};

verus! {

/// An update of the provider's record `id`.
#[derive(Clone, Debug, PartialEq, Eq)]
pub struct PatchOp {
    pub id: String,
    pub record: DesiredRecord,
}

/// One batched mutation of a zone: updates and creations.
#[derive(Clone, Debug, PartialEq, Eq)]
pub struct BatchRequest {
    pub patches: Vec<PatchOp>,
    pub posts: Vec<DesiredRecord>,
}

/// What a zone's batch achieved, as the provider confirmed it.
#[derive(Clone, Debug, PartialEq, Eq)]
pub struct BatchOutcome {
    pub patched: usize,
    pub posted: usize,
    pub body: String,
}

/// The updates among `rs`, in order.
pub open spec fn patches_of(rs: Seq<ReconciledRecord>) -> Seq<PatchOp>
    decreases rs.len(),
{
    if rs.len() == 0 {
        seq![]
    } else {
        let front = patches_of(rs.drop_last());
        match rs.last() {
            ReconciledRecord::Update { id, record } => front.push(PatchOp { id, record }),
            ReconciledRecord::Create { .. } => front,
        }
    }
}

/// The creations among `rs`, in order.
pub open spec fn posts_of(rs: Seq<ReconciledRecord>) -> Seq<DesiredRecord>
    decreases rs.len(),
{
    if rs.len() == 0 {
        seq![]
    } else {
        let front = posts_of(rs.drop_last());
        match rs.last() {
            ReconciledRecord::Update { .. } => front,
            ReconciledRecord::Create { record } => front.push(record),
        }
    }
}

/// Every reconciled record lands in the batch once: as a patch when it carries
/// a provider identifier, as a post when it does not.
pub proof fn lemma_partition_covers(rs: Seq<ReconciledRecord>)
    ensures
        patches_of(rs).len() + posts_of(rs).len() == rs.len(),
    decreases rs.len(),
{
    if rs.len() > 0 {
        lemma_partition_covers(rs.drop_last());
    }
}

/// Splits reconciled records into the batch's patches (those with a provider
/// identifier) and posts (those without), each in the order of `reconciled`.
pub fn partition(reconciled: &Vec<ReconciledRecord>) -> (r: BatchRequest)
    ensures
        r.patches@ == patches_of(reconciled@),
        r.posts@ == posts_of(reconciled@),
{
    let mut patches: Vec<PatchOp> = Vec::new();
    let mut posts: Vec<DesiredRecord> = Vec::new();
    let mut i: usize = 0;
    while i < reconciled.len()
        invariant
            i <= reconciled@.len(),
            patches@ == patches_of(reconciled@.subrange(0, i as int)),
            posts@ == posts_of(reconciled@.subrange(0, i as int)),
        decreases reconciled@.len() - i,
    {
        let ghost before = reconciled@.subrange(0, i as int);
        let ghost after = reconciled@.subrange(0, i + 1);
        assert(after.drop_last() == before);
        match &reconciled[i] {
            ReconciledRecord::Update { id, record } => {
                patches.push(PatchOp { id: id.clone(), record: record.copy() });
            },
            ReconciledRecord::Create { record } => {
                posts.push(record.copy());
            },
        }
        i = i + 1;
    }
    assert(reconciled@.subrange(0, i as int) == reconciled@);
    BatchRequest { patches, posts }
}

/// The JSON string literal of `s`, quotes and escapes included, as serde_json
/// writes it.
pub uninterp spec fn json_string_literal(s: Seq<char>) -> Seq<char>;

/// The decimal digit for `d`.
pub open spec fn digit_char(d: nat) -> char {
    if d == 0 { '0' }
    else if d == 1 { '1' }
    else if d == 2 { '2' }
    else if d == 3 { '3' }
    else if d == 4 { '4' }
    else if d == 5 { '5' }
    else if d == 6 { '6' }
    else if d == 7 { '7' }
    else if d == 8 { '8' }
    else { '9' }
}

/// The decimal numeral of `n`, without leading zeros.
pub open spec fn decimal(n: nat) -> Seq<char>
    decreases n,
{
    if n < 10 {
        seq![digit_char(n)]
    } else {
        decimal(n / 10).push(digit_char(n % 10))
    }
}

/// The fields of a record as a JSON object writes them, without braces.
pub open spec fn record_fields_text(r: DesiredRecord) -> Seq<char> {
    "\"name\":"@ + json_string_literal(r.name@) + ",\"type\":"@ + json_string_literal(
        r.record_type@,
    ) + ",\"content\":"@ + json_string_literal(r.content@) + ",\"ttl\":"@ + decimal(r.ttl as nat)
        + ",\"proxied\":"@ + if r.proxied {
        "true"@
    } else {
        "false"@
    }
}

/// A creation as a JSON object.
pub open spec fn post_text(r: DesiredRecord) -> Seq<char> {
    "{"@ + record_fields_text(r) + "}"@
}

/// An update as a JSON object: the provider's identifier, then the fields.
pub open spec fn patch_text(p: PatchOp) -> Seq<char> {
    "{\"id\":"@ + json_string_literal(p.id@) + ","@ + record_fields_text(p.record) + "}"@
}

/// The texts of `items` joined by commas.
pub open spec fn join_commas(items: Seq<Seq<char>>) -> Seq<char>
    decreases items.len(),
{
    if items.len() == 0 {
        seq![]
    } else if items.len() == 1 {
        items[0]
    } else {
        join_commas(items.drop_last()) + ","@ + items.last()
    }
}

/// The body of a batch request: a JSON object with the array of patches and
/// the array of posts.
pub open spec fn batch_text(patches: Seq<PatchOp>, posts: Seq<DesiredRecord>) -> Seq<char> {
    "{\"patches\":["@ + join_commas(patches.map_values(|p: PatchOp| patch_text(p)))
        + "],\"posts\":["@ + join_commas(posts.map_values(|r: DesiredRecord| post_text(r)))
        + "]}"@
}

/// Relies on serde_json::to_string on a `str`: the JSON string literal of its
/// characters. Serializing a `str` into serde_json's in-memory buffer never
/// fails, so the result is always `Some`.
#[verifier::external_body]
fn json_quote(s: &str) -> (r: Option<String>)
    ensures
        r is Some,
        r->Some_0@ == json_string_literal(s@),
{
    serde_json::to_string(s).ok()
}

/// Relies on `u32`'s `to_string`: its decimal numeral.
#[verifier::external_body]
fn decimal_text(n: u32) -> (r: String)
    ensures
        r@ == decimal(n as nat),
{
    n.to_string()
}

/// Appends the JSON string literal of `s` to `out`.
fn push_quoted(out: &mut String, s: &String)
    ensures
        final(out)@ == old(out)@ + json_string_literal(s@),
{
    if let Some(q) = json_quote(s.as_str()) {
        out.append(q.as_str());
    }
}

/// Appends the fields of `r` to `out`.
fn push_record_fields(out: &mut String, r: &DesiredRecord)
    ensures
        final(out)@ == old(out)@ + record_fields_text(*r),
{
    let ghost start = out@;
    out.append("\"name\":");
    push_quoted(out, &r.name);
    out.append(",\"type\":");
    push_quoted(out, &r.record_type);
    out.append(",\"content\":");
    push_quoted(out, &r.content);
    out.append(",\"ttl\":");
    let ttl = decimal_text(r.ttl);
    out.append(ttl.as_str());
    out.append(",\"proxied\":");
    if r.proxied {
        out.append("true");
    } else {
        out.append("false");
    }
    assert(out@ =~= start + record_fields_text(*r));
}

/// Writes the body of a batch request: `{"patches":[...],"posts":[...]}`, each
/// record an object with its name, type, content, ttl and proxied flag, and
/// each patch its provider identifier first.
pub fn batch_body(request: &BatchRequest) -> (r: String)
    ensures
        r@ == batch_text(request.patches@, request.posts@),
{
    let mut out = String::new();
    out.append("{\"patches\":[");
    let ghost head = out@;
    let ghost ptexts = request.patches@.map_values(|p: PatchOp| patch_text(p));
    let mut i: usize = 0;
    while i < request.patches.len()
        invariant
            i <= request.patches@.len(),
            ptexts == request.patches@.map_values(|p: PatchOp| patch_text(p)),
            out@ == head + join_commas(ptexts.subrange(0, i as int)),
        decreases request.patches@.len() - i,
    {
        assert(ptexts.subrange(0, i + 1).drop_last() == ptexts.subrange(0, i as int));
        if i > 0 {
            out.append(",");
        }
        let p = &request.patches[i];
        out.append("{\"id\":");
        push_quoted(&mut out, &p.id);
        out.append(",");
        push_record_fields(&mut out, &p.record);
        out.append("}");
        i = i + 1;
        assert(out@ =~= head + join_commas(ptexts.subrange(0, i as int)));
    }
    assert(ptexts.subrange(0, i as int) == ptexts);
    out.append("],\"posts\":[");
    let ghost mid = out@;
    let ghost rtexts = request.posts@.map_values(|r: DesiredRecord| post_text(r));
    let mut k: usize = 0;
    while k < request.posts.len()
        invariant
            k <= request.posts@.len(),
            rtexts == request.posts@.map_values(|r: DesiredRecord| post_text(r)),
            out@ == mid + join_commas(rtexts.subrange(0, k as int)),
        decreases request.posts@.len() - k,
    {
        assert(rtexts.subrange(0, k + 1).drop_last() == rtexts.subrange(0, k as int));
        if k > 0 {
            out.append(",");
        }
        out.append("{");
        push_record_fields(&mut out, &request.posts[k]);
        out.append("}");
        k = k + 1;
        assert(out@ =~= mid + join_commas(rtexts.subrange(0, k as int)));
    }
    assert(rtexts.subrange(0, k as int) == rtexts);
    out.append("]}");
    assert(out@ =~= batch_text(request.patches@, request.posts@));
    out
}

/// Reads the provider's answer to a batch: success only when its top-level
/// success flag is true; otherwise the raw answer comes back as the error,
/// whatever part of the batch the provider may have applied.
pub fn batch_outcome(request: &BatchRequest, success: bool, body: String) -> (r: Result<
    BatchOutcome,
    SyncError,
>)
    ensures
        success <==> r is Ok,
        r matches Ok(o) ==> o.patched == request.patches@.len() && o.posted
            == request.posts@.len() && o.body == body,
        r matches Err(e) ==> e == (SyncError::Provider { body }),
{
    if success {
        Ok(BatchOutcome { patched: request.patches.len(), posted: request.posts.len(), body })
    } else {
        Err(SyncError::Provider { body })
    }
}

} // verus!
