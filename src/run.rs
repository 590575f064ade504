use vstd::prelude::*;
use crate::batch::{
    batch_body, batch_outcome, batch_text, partition, patches_of, posts_of, BatchOutcome, BatchRequest,
};
use crate::desired::{build_desired, desired_of, records_in_zone, records_in_zone_spec, DomainPolicy};
use crate::gate::{all_applied, should_proceed, Secret};
use crate::reconcile::{reconcile, reconcile_spec};
use crate::records::{DesiredRecord, ProviderEntry, ReconciledRecord, SyncError, Zone};
use crate::zones::{existing_records, resolve_zones, zones_of, ProviderResponse};

verus! {

/// What the caller does next for a run.
#[derive(Clone, Debug, PartialEq, Eq)]
pub enum Action {
    /// Stop: the address has not changed since it was last applied.
    Skip,
    /// List the provider's zones and hand the answer to `on_zone_list`.
    ListZones,
    /// Fetch the records of zone `zone` and hand the answer to `on_records`.
    FetchRecords { zone: usize },
    /// Submit `body` as the batch of zone `zone` and hand the answer to `on_batch`.
    ApplyBatch { zone: usize, body: String },
    /// Write the run state back, then stop.
    Persist,
    /// Stop; some zones may have failed, and nothing is to be written.
    Done,
    /// Stop: the run failed as a whole.
    Fail { error: SyncError },
}

/// One run: the zones are handled one after another, and a zone that fails
/// is reported and passed over; the address is recorded only when all succeed.
#[derive(Clone, Debug, PartialEq, Eq)]
pub struct Run {
    pub secret: Secret,
    pub address: String,
    pub domains: Vec<String>,
    pub desired: Vec<DesiredRecord>,
    pub zones: Vec<Zone>,
    /// The outcome of each zone handled so far, in order.
    pub zone_ok: Vec<bool>,
    /// The batch framed for the zone being handled.
    pub batch: BatchRequest,
}

impl Run {
    /// No more outcomes than zones.
    pub open spec fn wf(&self) -> bool {
        self.zone_ok@.len() <= self.zones@.len()
    }

    /// Starts a run for `domains` at `address`: it fails when the address is
    /// empty, is skipped when the address is the one last applied, and
    /// otherwise begins by listing the zones.
    pub fn start(
        secret: Secret,
        domains: Vec<String>,
        policies: &Vec<DomainPolicy>,
        record_type: &String,
        address: String,
    ) -> (r: (Run, Action))
        ensures
            r.0.wf(),
            r.0.secret == secret,
            r.0.address == address,
            r.0.domains == domains,
            r.0.zones@.len() == 0,
            r.0.zone_ok@.len() == 0,
            r.0.batch.patches@.len() == 0,
            r.0.batch.posts@.len() == 0,
            r.0.desired@.len() == policies@.len(),
            forall|i: int|
                0 <= i < policies@.len() ==> #[trigger] r.0.desired@[i] == desired_of(
                    policies@[i],
                    *record_type,
                    address,
                ),
            address@.len() == 0 ==> r.1 == (Action::Fail { error: SyncError::Discovery }),
            address@.len() > 0 && should_proceed_spec(secret.last_ip, address) ==> r.1
                == Action::ListZones,
            address@.len() > 0 && !should_proceed_spec(secret.last_ip, address) ==> r.1
                == Action::Skip,
    {
        let empty = address.as_str().is_empty();
        let go = should_proceed(&address, &secret.last_ip);
        let desired = build_desired(policies, record_type, &address);
        let batch = BatchRequest { patches: Vec::new(), posts: Vec::new() };
        let run = Run { secret, address, domains, desired, zones: Vec::new(), zone_ok: Vec::new(), batch };
        if empty {
            (run, Action::Fail { error: SyncError::Discovery })
        } else if go {
            (run, Action::ListZones)
        } else {
            (run, Action::Skip)
        }
    }

    /// The next zone to fetch, or the end of the run once every zone is handled.
    fn advance(&mut self) -> (a: Action)
        requires
            old(self).wf(),
        ensures
            final(self).wf(),
            final(self).address == old(self).address,
            final(self).domains == old(self).domains,
            final(self).desired == old(self).desired,
            final(self).zones == old(self).zones,
            final(self).zone_ok == old(self).zone_ok,
            final(self).batch == old(self).batch,
            moved_on(*old(self), *final(self), a),
    {
        if self.zone_ok.len() < self.zones.len() {
            return Action::FetchRecords { zone: self.zone_ok.len() };
        }
        let write = self.secret.finish_run(&self.address, &self.zone_ok);
        if write {
            Action::Persist
        } else {
            Action::Done
        }
    }

    /// Takes the provider's zone listing. A failed listing, or fewer zones than
    /// domains, fails the run before any zone is fetched and changes nothing;
    /// otherwise the first zone is fetched next, or the run ends if there is none.
    pub fn on_zone_list(&mut self, response: &ProviderResponse, raw: &String, record_type: &String) -> (a: Action)
        requires
            old(self).wf(),
            old(self).zone_ok@.len() == 0,
        ensures
            !response.success ==> a == (Action::Fail { error: SyncError::Provider { body: *raw } })
                && *final(self) == *old(self),
            response.success && zones_of(response.result@, old(self).domains@, record_type@).len()
                < old(self).domains@.len() ==> a == (Action::Fail {
                error: SyncError::ResolutionGap {
                    requested: old(self).domains@.len() as usize,
                    resolved: zones_of(response.result@, old(self).domains@, record_type@).len() as usize,
                },
            }) && *final(self) == *old(self),
            response.success && zones_of(response.result@, old(self).domains@, record_type@).len()
                >= old(self).domains@.len() ==> {
                &&& final(self).zones@ == zones_of(response.result@, old(self).domains@, record_type@)
                &&& final(self).zone_ok == old(self).zone_ok
                &&& final(self).batch == old(self).batch
                &&& moved_on(*old(self), *final(self), a)
            },
            final(self).wf(),
            final(self).address == old(self).address,
            final(self).domains == old(self).domains,
            final(self).desired == old(self).desired,
    {
        match resolve_zones(response, raw, &self.domains, record_type) {
            Err(e) => Action::Fail { error: e },
            Ok(zones) => {
                self.zones = zones;
                self.advance()
            },
        }
    }

    /// Takes the record listing of the zone being handled. On success it frames
    /// the zone's batch: the desired records named as the zone, reconciled with
    /// its records; the batch is kept and its body is to be submitted. A failed
    /// listing marks the zone failed and moves on, with no batch for it.
    pub fn on_records(&mut self, response: ProviderResponse, raw: &String) -> (a: Action)
        requires
            old(self).wf(),
            old(self).zone_ok@.len() < old(self).zones@.len(),
        ensures
            final(self).wf(),
            final(self).address == old(self).address,
            final(self).domains == old(self).domains,
            final(self).desired == old(self).desired,
            final(self).zones == old(self).zones,
            response.success ==> {
                let rs = zone_reconciled(*old(self), response.result@);
                &&& a is ApplyBatch
                &&& a->ApplyBatch_zone == old(self).zone_ok@.len()
                &&& a->ApplyBatch_body@ == batch_text(patches_of(rs), posts_of(rs))
                &&& final(self).batch.patches@ == patches_of(rs)
                &&& final(self).batch.posts@ == posts_of(rs)
                &&& final(self).zone_ok == old(self).zone_ok
                &&& final(self).secret == old(self).secret
            },
            !response.success ==> {
                &&& final(self).zone_ok@ == old(self).zone_ok@.push(false)
                &&& !(a is ApplyBatch)
                &&& final(self).secret == old(self).secret
                &&& moved_on(*old(self), *final(self), a)
            },
    {
        let index = self.zone_ok.len();
        match existing_records(response, raw) {
            Err(_) => {
                self.zone_ok.push(false);
                assert(self.zone_ok@[self.zone_ok@.len() - 1] == false);
                self.advance()
            },
            Ok(existing) => {
                let wanted = records_in_zone(&self.desired, &self.zones[index]);
                let reconciled = reconcile(&wanted, &existing);
                let request = partition(&reconciled);
                let body = batch_body(&request);
                self.batch = request;
                Action::ApplyBatch { zone: index, body }
            },
        }
    }

    /// Takes the provider's answer to the batch of the zone being handled: the
    /// zone succeeded only when the answer's top-level success flag is true;
    /// otherwise the raw answer comes back as the zone's error. Then the next
    /// zone is fetched, or the run ends.
    pub fn on_batch(&mut self, success: bool, body: String) -> (r: (Action, Result<BatchOutcome, SyncError>))
        requires
            old(self).wf(),
            old(self).zone_ok@.len() < old(self).zones@.len(),
        ensures
            final(self).wf(),
            final(self).address == old(self).address,
            final(self).domains == old(self).domains,
            final(self).desired == old(self).desired,
            final(self).zones == old(self).zones,
            final(self).batch == old(self).batch,
            final(self).zone_ok@ == old(self).zone_ok@.push(success),
            moved_on(*old(self), *final(self), r.0),
            success <==> r.1 is Ok,
            r.1 matches Ok(o) ==> o.patched == old(self).batch.patches@.len() && o.posted
                == old(self).batch.posts@.len() && o.body == body,
            r.1 matches Err(e) ==> e == (SyncError::Provider { body }),
            !success ==> final(self).secret == old(self).secret,
    {
        let outcome = batch_outcome(&self.batch, success, body);
        self.zone_ok.push(success);
        assert(self.zone_ok@[self.zone_ok@.len() - 1] == success);
        (self.advance(), outcome)
    }
}

/// The zone being handled, reconciled: the desired records named as the zone,
/// matched against the zone's records `existing`.
pub open spec fn zone_reconciled(run: Run, existing: Seq<ProviderEntry>) -> Seq<ReconciledRecord> {
    reconcile_spec(
        records_in_zone_spec(run.desired@, run.zones@[run.zone_ok@.len() as int].name@),
        existing,
    )
}

/// The step after a zone's outcomes are `after.zone_ok`: the next zone is
/// fetched with the state untouched, or, once every zone is handled, the run
/// ends as `finished` says.
pub open spec fn moved_on(before: Run, after: Run, a: Action) -> bool {
    &&& after.zone_ok@.len() < after.zones@.len() ==> a == (Action::FetchRecords {
        zone: after.zone_ok@.len() as usize,
    }) && after.secret == before.secret
    &&& after.zone_ok@.len() == after.zones@.len() ==> finished(
        before.secret,
        before.address,
        after.zone_ok@,
        after.secret,
        a,
    )
}

/// Whether a run goes on, as `should_proceed` decides it.
pub open spec fn should_proceed_spec(last_applied: Option<String>, address: String) -> bool {
    !(last_applied matches Some(l) && l@ == address@)
}

/// The end of a run with the zone outcomes `zone_ok`: the address is recorded
/// only when every zone succeeded, and the state is written only then and only
/// when it is kept in a file.
pub open spec fn finished(before: Secret, address: String, zone_ok: Seq<bool>, after: Secret, a: Action) -> bool {
    &&& all_applied(zone_ok) ==> after.last_ip == Some(address)
    &&& !all_applied(zone_ok) ==> after == before
    &&& after.cloudflare_api_key == before.cloudflare_api_key
    &&& after.is_file == before.is_file
    &&& (a == Action::Persist) == (all_applied(zone_ok) && before.is_file)
    &&& a == Action::Persist || a == Action::Done
}

} // verus!
