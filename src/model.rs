//! Artifacts, cached records and the request and response shapes of the cache.
//!
//! Pass-through blobs that the cache never inspects (the answer, the quality
//! envelope, free metadata) are held as JSON text.
use vstd::prelude::*;
use crate::text::occurs_in;
use crate::ttl::{remaining_seconds, remaining_spec};

verus! {

pub open spec fn opt_text(o: Option<String>) -> Option<Seq<char>> {
    match o {
        Some(s) => Some(s@),
        None => None,
    }
}

pub open spec fn text_list(v: Seq<String>) -> Seq<Seq<char>> {
    v.map_values(|s: String| s@)
}

pub fn copy_opt_text(o: &Option<String>) -> (r: Option<String>)
    ensures
        opt_text(r) == opt_text(*o),
{
    match o {
        Some(s) => Some(s.clone()),
        None => None,
    }
}

pub fn copy_text_list(v: &Vec<String>) -> (r: Vec<String>)
    ensures
        text_list(r@) == text_list(v@),
{
    let mut r: Vec<String> = Vec::new();
    let mut i: usize = 0;
    while i < v.len()
        invariant
            i <= v@.len(),
            r@.len() == i,
            forall|j: int| 0 <= j < i ==> #[trigger] r@[j]@ == v@[j]@,
        decreases v@.len() - i,
    {
        r.push(v[i].clone());
        i = i + 1;
    }
    assert(text_list(r@) =~= text_list(v@));
    r
}

/// Access control and compliance context of an artifact.
#[derive(Debug, Clone)]
pub struct PolicyContext {
    pub tenant: String,
    pub phi: bool,
    pub pii: bool,
    pub region: Option<String>,
    pub compliance_tags: Vec<String>,
}

pub struct PolicyView {
    pub tenant: Seq<char>,
    pub phi: bool,
    pub pii: bool,
    pub region: Option<Seq<char>>,
    pub compliance_tags: Seq<Seq<char>>,
}

impl View for PolicyContext {
    type V = PolicyView;

    open spec fn view(&self) -> PolicyView {
        PolicyView {
            tenant: self.tenant@,
            phi: self.phi,
            pii: self.pii,
            region: opt_text(self.region),
            compliance_tags: text_list(self.compliance_tags@),
        }
    }
}

impl PolicyContext {
    pub fn duplicate(&self) -> (r: Self)
        ensures
            r@ == self@,
    {
        PolicyContext {
            tenant: self.tenant.clone(),
            phi: self.phi,
            pii: self.pii,
            region: copy_opt_text(&self.region),
            compliance_tags: copy_text_list(&self.compliance_tags),
        }
    }
}

/// One lineage entry of an artifact.
#[derive(Debug, Clone)]
pub struct ProvenanceInfo {
    pub source: String,
    pub hash: Option<String>,
    pub version: Option<String>,
    /// Milliseconds since the Unix epoch.
    pub generated_at: Option<i64>,
}

pub struct ProvenanceView {
    pub source: Seq<char>,
    pub hash: Option<Seq<char>>,
    pub version: Option<Seq<char>>,
    pub generated_at: Option<i64>,
}

impl View for ProvenanceInfo {
    type V = ProvenanceView;

    open spec fn view(&self) -> ProvenanceView {
        ProvenanceView {
            source: self.source@,
            hash: opt_text(self.hash),
            version: opt_text(self.version),
            generated_at: self.generated_at,
        }
    }
}

impl ProvenanceInfo {
    pub fn duplicate(&self) -> (r: Self)
        ensures
            r@ == self@,
    {
        ProvenanceInfo {
            source: self.source.clone(),
            hash: copy_opt_text(&self.hash),
            version: copy_opt_text(&self.version),
            generated_at: self.generated_at,
        }
    }
}

pub open spec fn provenance_list(v: Seq<ProvenanceInfo>) -> Seq<ProvenanceView> {
    v.map_values(|p: ProvenanceInfo| p@)
}

pub fn copy_provenance(v: &Vec<ProvenanceInfo>) -> (r: Vec<ProvenanceInfo>)
    ensures
        provenance_list(r@) == provenance_list(v@),
{
    let mut r: Vec<ProvenanceInfo> = Vec::new();
    let mut i: usize = 0;
    while i < v.len()
        invariant
            i <= v@.len(),
            r@.len() == i,
            forall|j: int| 0 <= j < i ==> #[trigger] r@[j]@ == v@[j]@,
        decreases v@.len() - i,
    {
        r.push(v[i].duplicate());
        i = i + 1;
    }
    assert(provenance_list(r@) =~= provenance_list(v@));
    r
}

/// The unit of caching. The cache reads only its policy, provenance, TTL and hash.
#[derive(Debug, Clone)]
pub struct ArtifactPayload {
    /// The answer, as JSON text.
    pub answer: String,
    pub policy: PolicyContext,
    pub provenance: Vec<ProvenanceInfo>,
    /// Quality and confidence envelope, as JSON text.
    pub metrics: Option<String>,
    pub ttl_seconds: Option<u64>,
    pub hash: String,
    /// Free metadata, as JSON text.
    pub metadata: Option<String>,
}

pub struct ArtifactView {
    pub answer: Seq<char>,
    pub policy: PolicyView,
    pub provenance: Seq<ProvenanceView>,
    pub metrics: Option<Seq<char>>,
    pub ttl_seconds: Option<u64>,
    pub hash: Seq<char>,
    pub metadata: Option<Seq<char>>,
}

impl View for ArtifactPayload {
    type V = ArtifactView;

    open spec fn view(&self) -> ArtifactView {
        ArtifactView {
            answer: self.answer@,
            policy: self.policy@,
            provenance: provenance_list(self.provenance@),
            metrics: opt_text(self.metrics),
            ttl_seconds: self.ttl_seconds,
            hash: self.hash@,
            metadata: opt_text(self.metadata),
        }
    }
}

/// The artifact's own hash is `h`, or one of its provenance entries carries `h`.
pub open spec fn references_hash(a: ArtifactView, h: Seq<char>) -> bool {
    a.hash == h || exists|i: int|
        0 <= i < a.provenance.len() && #[trigger] a.provenance[i].hash == Some(h)
}

/// The source of one of the artifact's provenance entries contains `capsule`.
pub open spec fn references_capsule(a: ArtifactView, capsule: Seq<char>) -> bool {
    exists|i: int| 0 <= i < a.provenance.len() && occurs_in(#[trigger] a.provenance[i].source, capsule)
}

impl ArtifactPayload {
    pub fn duplicate(&self) -> (r: Self)
        ensures
            r@ == self@,
    {
        ArtifactPayload {
            answer: self.answer.clone(),
            policy: self.policy.duplicate(),
            provenance: copy_provenance(&self.provenance),
            metrics: copy_opt_text(&self.metrics),
            ttl_seconds: self.ttl_seconds,
            hash: self.hash.clone(),
            metadata: copy_opt_text(&self.metadata),
        }
    }

    /// Whether the artifact's hash, or the hash of one of its provenance entries, is `h`.
    pub fn has_hash(&self, h: &str) -> (r: bool)
        ensures
            r == references_hash(self@, h@),
    {
        let mut i: usize = 0;
        while i < self.provenance.len()
            invariant
                i <= self.provenance@.len(),
                forall|j: int| 0 <= j < i ==> self@.provenance[j].hash != Some(h@),
            decreases self.provenance@.len() - i,
        {
            match &self.provenance[i].hash {
                Some(ph) => {
                    if crate::text::same_text(ph.as_str(), h) {
                        assert(self@.provenance[i as int].hash == Some(h@));
                        return true;
                    }
                },
                None => {},
            }
            i = i + 1;
        }
        crate::text::same_text(self.hash.as_str(), h)
    }

    /// Whether the source of one of the provenance entries contains `capsule`.
    pub fn has_capsule(&self, capsule: &str) -> (r: bool)
        ensures
            r == references_capsule(self@, capsule@),
    {
        let mut i: usize = 0;
        while i < self.provenance.len()
            invariant
                i <= self.provenance@.len(),
                forall|j: int|
                    0 <= j < i ==> !occurs_in(#[trigger] self@.provenance[j].source, capsule@),
            decreases self.provenance@.len() - i,
        {
            if crate::text::contains_text(self.provenance[i].source.as_str(), capsule) {
                assert(occurs_in(self@.provenance[i as int].source, capsule@));
                return true;
            }
            i = i + 1;
        }
        false
    }
}

/// A stored record: the artifact with its key, write instant and optional deadline.
#[derive(Debug, Clone)]
pub struct CachedArtifact {
    pub key: String,
    pub artifact: ArtifactPayload,
    /// Milliseconds since the Unix epoch.
    pub stored_at: i64,
    /// Milliseconds since the Unix epoch; none for a record that does not expire.
    pub expires_at: Option<i64>,
}

pub struct RecordView {
    pub key: Seq<char>,
    pub artifact: ArtifactView,
    pub stored_at: i64,
    pub expires_at: Option<i64>,
}

impl View for CachedArtifact {
    type V = RecordView;

    open spec fn view(&self) -> RecordView {
        RecordView {
            key: self.key@,
            artifact: self.artifact@,
            stored_at: self.stored_at,
            expires_at: self.expires_at,
        }
    }
}

pub open spec fn ttl_remaining_spec(expires_at: Option<i64>, now: i64) -> Option<u64> {
    match expires_at {
        Some(d) => Some(remaining_spec(d, now)),
        None => None,
    }
}

impl CachedArtifact {
    pub fn duplicate(&self) -> (r: Self)
        ensures
            r@ == self@,
    {
        CachedArtifact {
            key: self.key.clone(),
            artifact: self.artifact.duplicate(),
            stored_at: self.stored_at,
            expires_at: self.expires_at,
        }
    }

    /// Whole seconds left before the record expires (zero once past); none
    /// for a record that does not expire.
    pub fn ttl_remaining_seconds(&self, now: i64) -> (r: Option<u64>)
        ensures
            r == ttl_remaining_spec(self.expires_at, now),
    {
        match self.expires_at {
            Some(d) => Some(remaining_seconds(d, now)),
            None => None,
        }
    }
}

#[derive(Debug, Clone)]
pub struct StoreRequest {
    pub key: String,
    pub artifact: ArtifactPayload,
}

#[derive(Debug, Clone, Copy, PartialEq, Eq, Structural)]
pub enum StoreStatus {
    Created,
    Updated,
}

impl StoreStatus {
    /// The status as written on the wire.
    pub fn as_text(&self) -> (r: String)
        ensures
            r@ == match self {
                StoreStatus::Created => "created"@,
                StoreStatus::Updated => "updated"@,
            },
    {
        match self {
            StoreStatus::Created => "created".to_string(),
            StoreStatus::Updated => "updated".to_string(),
        }
    }
}

#[derive(Debug, Clone)]
pub struct StoreResponse {
    pub key: String,
    pub status: StoreStatus,
    pub hash: String,
    pub expires_at: Option<i64>,
}

#[derive(Debug, Clone)]
pub struct LookupResponse {
    pub key: String,
    pub artifact: ArtifactPayload,
    pub expires_at: Option<i64>,
    pub ttl_remaining_seconds: Option<u64>,
}

#[derive(Debug, Clone)]
pub struct LookupQuery {
    pub key: String,
    pub tenant: Option<String>,
}

#[derive(Debug, Clone)]
pub struct PurgeRequest {
    pub keys: Vec<String>,
    pub tenant: Option<String>,
    pub provenance_hash: Option<String>,
}

#[derive(Debug, Clone, Copy, PartialEq, Eq, Structural)]
pub struct PurgeResponse {
    pub purged: usize,
}

} // verus!
