//! A self-contained in-memory cache that applies the TTL rules on write.
use vstd::prelude::*;
use crate::backend::{expired_keys_of, read_outcome, opt_record, written, CacheBackend, MemoryBackend, Records};
use crate::model::{text_list, ArtifactPayload, ArtifactView, CachedArtifact};
use crate::purge::lemma_count_removed;
use crate::ttl::{effective_ttl_spec, expiry_for_ttl, offset};

verus! {

/// The result of a write: the stored record, and whether the key was new.
pub struct CacheWriteOutcome {
    pub record: CachedArtifact,
    pub created: bool,
}

/// The artifact as stored: its TTL replaced by the effective one, or cleared
/// when the effective TTL is zero.
pub open spec fn normalized(a: ArtifactView, default_ttl: u64) -> ArtifactView {
    let ttl = effective_ttl_spec(a.ttl_seconds, default_ttl);
    ArtifactView { ttl_seconds: if ttl == 0 { None } else { Some(ttl) }, ..a }
}

/// Applies the TTL rules to `payload`: the effective TTL is its own when
/// positive, else `default_ttl`; returns the deadline and the TTL, none when zero.
pub fn normalize_ttl(payload: &mut ArtifactPayload, default_ttl: u64, now: i64) -> (r: (
    Option<i64>,
    Option<u64>,
))
    ensures
        final(payload)@ == normalized(old(payload)@, default_ttl),
        r.0 == expiry_for_ttl(effective_ttl_spec(old(payload)@.ttl_seconds, default_ttl), now),
        r.1 == final(payload)@.ttl_seconds,
{
    let requested = match payload.ttl_seconds {
        Some(secs) => if secs > 0 {
            Some(secs)
        } else {
            None
        },
        None => None,
    };
    let duration = match requested {
        Some(secs) => secs,
        None => default_ttl,
    };
    if duration == 0 {
        payload.ttl_seconds = None;
        return (None, None);
    }
    let expires_at = offset(now, duration);
    payload.ttl_seconds = Some(duration);
    (Some(expires_at), Some(duration))
}

/// In-memory cache with a default TTL.
pub struct CacheState {
    inner: MemoryBackend,
    default_ttl: u64,
}

impl CacheState {
    pub closed spec fn records(&self) -> Records {
        self.inner.records()
    }

    pub closed spec fn wf(&self) -> bool {
        self.inner.wf()
    }

    pub closed spec fn default_ttl_spec(&self) -> u64 {
        self.default_ttl
    }

    /// An empty cache whose default TTL is `default_ttl` seconds.
    pub fn new(default_ttl: u64) -> (r: Self)
        ensures
            r.wf(),
            r.records() == Map::<Seq<char>, crate::model::RecordView>::empty(),
            r.default_ttl_spec() == default_ttl,
    {
        CacheState { inner: MemoryBackend::new(), default_ttl }
    }

    pub fn default_ttl(&self) -> (r: u64)
        ensures
            r == self.default_ttl_spec(),
    {
        self.default_ttl
    }

    /// Writes `payload` under `key` at `now`, with its TTL normalized.
    pub fn set(&mut self, key: String, payload: ArtifactPayload, now: i64) -> (r: CacheWriteOutcome)
        requires
            old(self).wf(),
        ensures
            final(self).wf(),
            final(self).default_ttl_spec() == old(self).default_ttl_spec(),
            r.record@ == written(
                key@,
                normalized(payload@, old(self).default_ttl_spec()),
                now,
                expiry_for_ttl(effective_ttl_spec(payload@.ttl_seconds, old(self).default_ttl_spec()), now),
            ),
            r.created == !old(self).records().contains_key(key@),
            final(self).records() == old(self).records().insert(key@, r.record@),
    {
        let mut payload = payload;
        let (expires_at, _ttl) = normalize_ttl(&mut payload, self.default_ttl, now);
        let record = CachedArtifact { key, artifact: payload, stored_at: now, expires_at };
        let reply = record.duplicate();
        let created = self.inner.insert_record(record);
        CacheWriteOutcome { record: reply, created }
    }

    /// The live record under `key`; an expired one is dropped.
    pub fn get(&mut self, key: &str, now: i64) -> (r: Option<CachedArtifact>)
        requires
            old(self).wf(),
        ensures
            final(self).wf(),
            final(self).default_ttl_spec() == old(self).default_ttl_spec(),
            read_outcome(old(self).records(), final(self).records(), key@, now, opt_record(r)),
    {
        self.inner.read(key, now)
    }

    /// Removes the records under `keys`; returns how many there were.
    pub fn purge(&mut self, keys: &[String]) -> (r: usize)
        requires
            old(self).wf(),
        ensures
            final(self).wf(),
            final(self).default_ttl_spec() == old(self).default_ttl_spec(),
            final(self).records() == old(self).records().remove_keys(text_list(keys@).to_set()),
            r == old(self).records().dom().intersect(text_list(keys@).to_set()).len(),
    {
        let ghost before = self.records();
        proof {
            lemma_count_removed(before, text_list(keys@));
        }
        self.inner.remove_all(keys)
    }

    /// Removes every record that has expired at `now`; returns how many.
    pub fn purge_expired(&mut self, now: i64) -> (r: usize)
        requires
            old(self).wf(),
        ensures
            final(self).wf(),
            final(self).default_ttl_spec() == old(self).default_ttl_spec(),
            final(self).records() == old(self).records().remove_keys(
                expired_keys_of(old(self).records(), now),
            ),
            r == expired_keys_of(old(self).records(), now).len(),
    {
        let ghost before = self.records();
        let keys = self.inner.expired_keys(now);
        proof {
            lemma_count_removed(before, text_list(keys@));
            assert(before.dom().intersect(text_list(keys@).to_set()) =~= expired_keys_of(before, now));
        }
        self.inner.remove_all(keys.as_slice())
    }
}

} // verus!
