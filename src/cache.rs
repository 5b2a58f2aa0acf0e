//! The cache facade: one stable API over any storage backend.
use vstd::prelude::*;
use crate::backend::{
    count_removed, matching_keys, opt_record, read_outcome, written, CacheBackend,
    Records,
};
use crate::error::{bad_request_with, AppError};
use crate::model::{text_list, ArtifactPayload, CachedArtifact};
use crate::ttl::expired_at;

verus! {

/// Cache over a backend `B`.
pub struct Cache<B: CacheBackend> {
    backend: B,
}

impl<B: CacheBackend> Cache<B> {
    pub closed spec fn records(&self) -> Records {
        self.backend.records()
    }

    pub closed spec fn wf(&self) -> bool {
        self.backend.wf()
    }

    /// The backend's operations cannot fail.
    pub closed spec fn infallible(&self) -> bool {
        self.backend.infallible()
    }

    pub fn new(backend: B) -> (r: Self)
        ensures
            r.records() == backend.records(),
            r.wf() == backend.wf(),
            r.infallible() == backend.infallible(),
    {
        Cache { backend }
    }

    /// The backend, for callers that need its own operations.
    pub fn backend(&self) -> (r: &B)
        ensures
            r.records() == self.records(),
            r.wf() == self.wf(),
            r.infallible() == self.infallible(),
    {
        &self.backend
    }

    pub fn get(&mut self, key: &str, now: i64) -> (r: Result<Option<CachedArtifact>, AppError>)
        requires
            old(self).wf(),
        ensures
            final(self).wf(),
            r matches Ok(found) ==> read_outcome(
                old(self).records(),
                final(self).records(),
                key@,
                now,
                opt_record(found),
            ),
            r is Err ==> final(self).records() == old(self).records(),
            r matches Err(e) ==> e is Internal,
            final(self).infallible() == old(self).infallible(),
            old(self).infallible() ==> r is Ok,
    {
        self.backend.get(key, now)
    }

    pub fn set(&mut self, key: String, artifact: ArtifactPayload, expires_at: Option<i64>, now: i64) -> (r:
        Result<CachedArtifact, AppError>)
        requires
            old(self).wf(),
        ensures
            final(self).wf(),
            expired_at(expires_at, now) ==> (r matches Err(e) && bad_request_with(
                e,
                "Artifact already expired"@,
            )),
            r matches Ok(c) ==> !expired_at(expires_at, now) && c@ == written(
                key@,
                artifact@,
                now,
                expires_at,
            ) && final(self).records() == old(self).records().insert(key@, c@),
            r is Err ==> final(self).records() == old(self).records(),
            !expired_at(expires_at, now) ==> (r matches Err(e) ==> e is Internal),
            final(self).infallible() == old(self).infallible(),
            old(self).infallible() && !expired_at(expires_at, now) ==> r is Ok,
    {
        self.backend.set(key, artifact, expires_at, now)
    }

    pub fn delete(&mut self, key: &str) -> (r: Result<bool, AppError>)
        requires
            old(self).wf(),
        ensures
            final(self).wf(),
            r matches Ok(b) ==> b == old(self).records().contains_key(key@)
                && final(self).records() == old(self).records().remove(key@),
            r is Err ==> final(self).records() == old(self).records(),
            r matches Err(e) ==> e is Internal,
            final(self).infallible() == old(self).infallible(),
            old(self).infallible() ==> r is Ok,
    {
        self.backend.delete(key)
    }

    pub fn delete_many(&mut self, keys: &[String]) -> (r: Result<usize, AppError>)
        requires
            old(self).wf(),
        ensures
            final(self).wf(),
            r matches Ok(n) ==> n == count_removed(old(self).records(), text_list(keys@))
                && final(self).records() == old(self).records().remove_keys(
                text_list(keys@).to_set(),
            ),
            r matches Err(e) ==> e is Internal,
            final(self).infallible() == old(self).infallible(),
            old(self).infallible() ==> r is Ok,
    {
        self.backend.delete_many(keys)
    }

    pub fn scan_by_pattern(&self, pattern: &str) -> (r: Result<Vec<String>, AppError>)
        requires
            self.wf(),
        ensures
            r matches Ok(ks) ==> text_list(ks@).to_set() == matching_keys(
                self.records(),
                pattern@,
            ),
            r matches Err(e) ==> e is Internal,
            self.infallible() ==> r is Ok,
    {
        self.backend.scan_by_pattern(pattern)
    }
}

} // verus!
