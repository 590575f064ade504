use vstd::prelude::*;

verus! {

/// The time to live that the provider reads as "automatic".
pub const AUTOMATIC_TTL: u32 = 1;

/// A record as this run wants it to be.
#[derive(Clone, Debug, PartialEq, Eq)]
pub struct DesiredRecord {
    pub record_type: String,
    pub name: String,
    pub content: String,
    pub ttl: u32,
    pub proxied: bool,
}

/// One item of a provider listing: a zone or a record of a zone.
#[derive(Clone, Debug, PartialEq, Eq)]
pub struct ProviderEntry {
    pub id: String,
    pub name: String,
    pub content: Option<String>,
    pub record_type: Option<String>,
}

/// A desired record paired with what the provider has under its identity key.
#[derive(Clone, Debug, PartialEq, Eq)]
pub enum ReconciledRecord {
    /// No record with this name and type exists yet.
    Create { record: DesiredRecord },
    /// The provider's record `id` is overwritten with the desired values.
    Update { id: String, record: DesiredRecord },
}

/// Why a step of a run failed.
#[derive(Clone, Debug, PartialEq, Eq)]
pub enum SyncError {
    /// The provider reported a failure; `body` is its raw answer.
    Provider { body: String },
    /// Fewer zones were found than domains were asked for.
    ResolutionGap { requested: usize, resolved: usize },
    /// The discovered address was empty.
    Discovery,
}

/// A zone of the provider that this run writes to.
#[derive(Clone, Debug, PartialEq, Eq)]
pub struct Zone {
    pub id: String,
    pub name: String,
}

impl DesiredRecord {
    /// A record with the same values.
    pub fn copy(&self) -> (r: DesiredRecord)
        ensures
            r == *self,
    {
        DesiredRecord {
            record_type: self.record_type.clone(),
            name: self.name.clone(),
            content: self.content.clone(),
            ttl: self.ttl,
            proxied: self.proxied,
        }
    }
}

impl ReconciledRecord {
    /// The desired values that this record writes.
    pub open spec fn spec_record(&self) -> DesiredRecord {
        match self {
            ReconciledRecord::Create { record } => *record,
            ReconciledRecord::Update { record, .. } => *record,
        }
    }

    /// The provider identifier that this record carries, if it is an update.
    pub open spec fn spec_id(&self) -> Option<String> {
        match self {
            ReconciledRecord::Create { .. } => None,
            ReconciledRecord::Update { id, .. } => Some(*id),
        }
    }

    /// The desired values that this record writes.
    pub fn record(&self) -> (r: &DesiredRecord)
        ensures
            *r == self.spec_record(),
    {
        match self {
            ReconciledRecord::Create { record } => record,
            ReconciledRecord::Update { record, .. } => record,
        }
    }

    /// The provider identifier that this record carries, if it is an update.
    pub fn id(&self) -> (r: Option<&String>)
        ensures
            r is None <==> self.spec_id() is None,
            r is Some ==> self.spec_id() == Some(*r->0),
    {
        match self {
            ReconciledRecord::Create { .. } => None,
            ReconciledRecord::Update { id, .. } => Some(id),
        }
    }
}

} // verus!
