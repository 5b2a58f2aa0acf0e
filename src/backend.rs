//! The storage capability that the cache is built on, and a deterministic
//! in-memory implementation of it.
use vstd::prelude::*;
use crate::error::{bad_request_with, AppError};
use crate::model::{text_list, ArtifactPayload, ArtifactView, CachedArtifact, RecordView};
use crate::text::{glob, glob_match, has_prefix, same_text, strip_prefix_text};
use crate::ttl::{expired_at, is_expired};

verus! {

/// Logical contents of a backend: the live and not yet collected records, by key.
pub type Records = Map<Seq<char>, RecordView>;

pub open spec fn opt_record(o: Option<CachedArtifact>) -> Option<RecordView> {
    match o {
        Some(c) => Some(c@),
        None => None,
    }
}

/// The record written for `key` at `now`.
pub open spec fn written(key: Seq<char>, artifact: ArtifactView, now: i64, expires_at: Option<i64>) -> RecordView {
    RecordView { key, artifact, stored_at: now, expires_at }
}

/// Reading `key` at `now` from `before` yields `found` and leaves `after`: a live
/// record is returned and kept; an expired one is dropped and not returned.
pub open spec fn read_outcome(before: Records, after: Records, key: Seq<char>, now: i64, found: Option<RecordView>) -> bool {
    if before.contains_key(key) && !expired_at(before[key].expires_at, now) {
        found == Some(before[key]) && after == before
    } else {
        found is None && after == before.remove(key)
    }
}

/// The number of the listed keys that hold a record, each key counted once.
pub open spec fn count_removed(m: Records, keys: Seq<Seq<char>>) -> nat
    decreases keys.len(),
{
    if keys.len() == 0 {
        0
    } else {
        (if m.contains_key(keys[0]) { 1nat } else { 0nat }) + count_removed(
            m.remove(keys[0]),
            keys.drop_first(),
        )
    }
}

/// The keys of `m` that match `pattern`.
pub open spec fn matching_keys(m: Records, pattern: Seq<char>) -> Set<Seq<char>> {
    m.dom().filter(|k: Seq<char>| glob(pattern, k))
}

/// Keys whose record in `m` has expired at `now`.
pub open spec fn expired_keys_of(m: Records, now: i64) -> Set<Seq<char>> {
    m.dom().filter(|k: Seq<char>| expired_at(m[k].expires_at, now))
}

/// The physical key under which a backend that shares a keyspace stores `key`.
pub open spec fn physical_key_spec(key: Seq<char>) -> Seq<char> {
    "scedge:artifact:"@ + key
}

/// `scedge:artifact:<key>`.
pub fn physical_key(key: &str) -> (r: String)
    ensures
        r@ == physical_key_spec(key@),
{
    let mut r = "scedge:artifact:".to_string();
    r.append(key);
    r
}

/// The logical key of a physical key, when it carries the namespace.
pub fn logical_key(physical: &str) -> (r: Option<String>)
    ensures
        r is Some <==> has_prefix(physical@, "scedge:artifact:"@),
        r matches Some(k) ==> physical_key_spec(k@) == physical@,
{
    let r = strip_prefix_text(physical, "scedge:artifact:");
    proof {
        if r is Some {
            let p = "scedge:artifact:"@;
            assert(physical@.subrange(0, p.len() as int) == p);
            assert(p + r->0@ =~= physical@);
        }
    }
    r
}

/// The storage capability: keyed records with lazy expiry, bulk deletion and
/// pattern enumeration. `now` is the current instant in milliseconds.
///
/// An implementation describes its contents through `records` and its
/// invariant through `wf`. One that keeps the defaults is never well formed,
/// so nothing proved of the pipeline applies to it. An implementation whose
/// operations cannot fail says so through `infallible`.
pub trait CacheBackend: Sized {
    open spec fn records(&self) -> Records {
        Map::empty()
    }

    open spec fn wf(&self) -> bool {
        false
    }

    open spec fn infallible(&self) -> bool {
        false
    }

    /// The record under `key`, unless absent or expired; an expired record is dropped.
    fn get(&mut self, key: &str, now: i64) -> (r: Result<Option<CachedArtifact>, AppError>)
        requires
            old(self).wf(),
        ensures
            final(self).wf(),
            r matches Ok(found) ==> read_outcome(
                old(self).records(),
                final(self).records(),
                key@,
                now,
                opt_record(found),
            ),
            r is Err ==> final(self).records() == old(self).records(),
            r matches Err(e) ==> e is Internal,
            final(self).infallible() == old(self).infallible(),
            old(self).infallible() ==> r is Ok,
    ;

    /// Writes the record for `key`; refuses a deadline that is not after `now`.
    fn set(&mut self, key: String, artifact: ArtifactPayload, expires_at: Option<i64>, now: i64) -> (r:
        Result<CachedArtifact, AppError>)
        requires
            old(self).wf(),
        ensures
            final(self).wf(),
            expired_at(expires_at, now) ==> (r matches Err(e) && bad_request_with(
                e,
                "Artifact already expired"@,
            )),
            r matches Ok(c) ==> !expired_at(expires_at, now) && c@ == written(
                key@,
                artifact@,
                now,
                expires_at,
            ) && final(self).records() == old(self).records().insert(key@, c@),
            r is Err ==> final(self).records() == old(self).records(),
            !expired_at(expires_at, now) ==> (r matches Err(e) ==> e is Internal),
            final(self).infallible() == old(self).infallible(),
            old(self).infallible() && !expired_at(expires_at, now) ==> r is Ok,
    ;

    /// Removes the record under `key`; true when there was one.
    fn delete(&mut self, key: &str) -> (r: Result<bool, AppError>)
        requires
            old(self).wf(),
        ensures
            final(self).wf(),
            r matches Ok(b) ==> b == old(self).records().contains_key(key@)
                && final(self).records() == old(self).records().remove(key@),
            r is Err ==> final(self).records() == old(self).records(),
            r matches Err(e) ==> e is Internal,
            final(self).infallible() == old(self).infallible(),
            old(self).infallible() ==> r is Ok,
    ;

    /// Removes the records under all of `keys`; returns how many there were.
    fn delete_many(&mut self, keys: &[String]) -> (r: Result<usize, AppError>)
        requires
            old(self).wf(),
        ensures
            final(self).wf(),
            r matches Ok(n) ==> n == count_removed(old(self).records(), text_list(keys@))
                && final(self).records() == old(self).records().remove_keys(
                text_list(keys@).to_set(),
            ),
            r matches Err(e) ==> e is Internal,
            final(self).infallible() == old(self).infallible(),
            old(self).infallible() ==> r is Ok,
    ;

    /// The keys that match `pattern` (`*` matches any run of characters).
    fn scan_by_pattern(&self, pattern: &str) -> (r: Result<Vec<String>, AppError>)
        requires
            self.wf(),
        ensures
            r matches Ok(ks) ==> text_list(ks@).to_set() == matching_keys(
                self.records(),
                pattern@,
            ),
            r matches Err(e) ==> e is Internal,
            self.infallible() ==> r is Ok,
    ;
}

pub proof fn lemma_push_to_set(s: Seq<Seq<char>>, k: Seq<char>)
    ensures
        s.push(k).to_set() == s.to_set().insert(k),
{
    assert forall|x: Seq<char>| #[trigger] s.push(k).to_set().contains(x) <==> s.to_set().insert(k).contains(x) by {
        if s.push(k).contains(x) {
            let i = choose|i: int| 0 <= i < s.push(k).len() && s.push(k)[i] == x;
            if i < s.len() {
                assert(s[i] == x);
            }
        }
        if s.contains(x) {
            let i = choose|i: int| 0 <= i < s.len() && s[i] == x;
            assert(s.push(k)[i] == x);
        }
        if x == k {
            assert(s.push(k)[s.len() as int] == x);
        }
    }
    assert(s.push(k).to_set() =~= s.to_set().insert(k));
}

/// In-memory backend: records kept in insertion order, one per key.
pub struct MemoryBackend {
    entries: Vec<CachedArtifact>,
    model: Ghost<Records>,
}

impl MemoryBackend {
    pub fn new() -> (r: Self)
        ensures
            r.wf(),
            r.records() == Map::<Seq<char>, RecordView>::empty(),
    {
        MemoryBackend { entries: Vec::new(), model: Ghost(Map::empty()) }
    }

    /// Number of records held, expired ones not yet collected included.
    pub fn len(&self) -> (r: usize)
        requires
            self.wf(),
        ensures
            r == self.records().len(),
    {
        proof {
            self.lemma_len();
        }
        self.entries.len()
    }

    proof fn lemma_len(&self)
        requires
            self.wf(),
        ensures
            self.entries@.len() == self.records().len(),
            self.records().dom().finite(),
    {
        let keys = self.entries@.map_values(|c: CachedArtifact| c@.key);
        assert forall|i: int, j: int| 0 <= i < j < keys.len() implies keys[i] != keys[j] by {}
        assert(keys.no_duplicates());
        assert(keys.to_set() =~= self.model@.dom()) by {
            assert forall|k: Seq<char>| keys.to_set().contains(k) implies self.model@.dom().contains(k) by {
                let i = choose|i: int| 0 <= i < keys.len() && keys[i] == k;
                assert(self.entries@[i]@.key == k);
            }
            assert forall|k: Seq<char>| self.model@.dom().contains(k) implies keys.to_set().contains(k) by {
                let i = choose|i: int| 0 <= i < self.entries@.len() && #[trigger] self.entries@[i]@.key == k;
                assert(keys[i] == k);
            }
        }
        keys.unique_seq_to_set();
    }

    fn position(&self, key: &str) -> (r: Option<usize>)
        requires
            self.wf(),
        ensures
            r matches Some(i) ==> i < self.entries@.len() && self.entries@[i as int]@.key == key@,
            r is None ==> !self.records().contains_key(key@),
    {
        let mut i: usize = 0;
        while i < self.entries.len()
            invariant
                i <= self.entries@.len(),
                forall|j: int| 0 <= j < i ==> self.entries@[j]@.key != key@,
            decreases self.entries@.len() - i,
        {
            if same_text(self.entries[i].key.as_str(), key) {
                return Some(i);
            }
            i = i + 1;
        }
        None
    }

    /// Writes `record` under its key; true when the key held no record before.
    pub fn insert_record(&mut self, record: CachedArtifact) -> (r: bool)
        requires
            old(self).wf(),
        ensures
            final(self).wf(),
            r == !old(self).records().contains_key(record@.key),
            final(self).records() == old(self).records().insert(record@.key, record@),
    {
        let ghost k = record@.key;
        let ghost rv = record@;
        let ghost pos: int;
        let created;
        match self.position(record.key.as_str()) {
            Some(i) => {
                proof {
                    pos = i as int;
                }
                self.entries.set(i, record);
                created = false;
            },
            None => {
                proof {
                    pos = self.entries@.len() as int;
                }
                self.entries.push(record);
                created = true;
            },
        }
        self.model = Ghost(self.model@.insert(k, rv));
        assert(self.entries@[pos]@.key == k);
        assert forall|x: Seq<char>| #[trigger] self.model@.contains_key(x) implies exists|i: int|
            0 <= i < self.entries@.len() && #[trigger] self.entries@[i]@.key == x by {
            if x != k {
                let i = choose|i: int|
                    0 <= i < old(self).entries@.len() && #[trigger] old(self).entries@[i]@.key == x;
                assert(i != pos);
                assert(self.entries@[i]@.key == x);
            } else {
                assert(self.entries@[pos]@.key == x);
            }
        }
        created
    }

    /// The keys whose record has expired at `now`.
    pub fn expired_keys(&self, now: i64) -> (r: Vec<String>)
        requires
            self.wf(),
        ensures
            text_list(r@).to_set() == expired_keys_of(self.records(), now),
    {
        let mut out: Vec<String> = Vec::new();
        let mut i: usize = 0;
        while i < self.entries.len()
            invariant
                i <= self.entries@.len(),
                self.wf(),
                forall|k: Seq<char>|
                    text_list(out@).contains(k) <==> exists|j: int|
                        0 <= j < i && #[trigger] self.entries@[j]@.key == k && expired_at(
                            self.entries@[j]@.expires_at,
                            now,
                        ),
            decreases self.entries@.len() - i,
        {
            let ghost before = text_list(out@);
            if is_expired(self.entries[i].expires_at, now) {
                out.push(self.entries[i].key.clone());
                assert(text_list(out@) =~= before.push(self.entries@[i as int]@.key));
            } else {
                assert(text_list(out@) =~= before);
            }
            proof {
                assert forall|k: Seq<char>|
                    text_list(out@).contains(k) <==> exists|j: int|
                        0 <= j < i + 1 && #[trigger] self.entries@[j]@.key == k && expired_at(
                            self.entries@[j]@.expires_at,
                            now,
                        ) by {
                    if text_list(out@).contains(k) {
                        let m = choose|m: int| 0 <= m < text_list(out@).len() && text_list(out@)[m] == k;
                        if m < before.len() {
                            assert(before[m] == k);
                            assert(before.contains(k));
                        } else {
                            assert(self.entries@[i as int]@.key == k);
                        }
                    }
                    if exists|j: int|
                        0 <= j < i + 1 && #[trigger] self.entries@[j]@.key == k && expired_at(
                            self.entries@[j]@.expires_at,
                            now,
                        ) {
                        let j = choose|j: int|
                            0 <= j < i + 1 && #[trigger] self.entries@[j]@.key == k && expired_at(
                                self.entries@[j]@.expires_at,
                                now,
                            );
                        if j < i {
                            assert(before.contains(k));
                            let m = choose|m: int| 0 <= m < before.len() && before[m] == k;
                            assert(text_list(out@)[m] == k);
                        } else {
                            assert(text_list(out@)[before.len() as int] == k);
                        }
                    }
                }
            }
            i = i + 1;
        }
        proof {
            assert(text_list(out@).to_set() =~= expired_keys_of(self.model@, now)) by {
                assert forall|k: Seq<char>| text_list(out@).to_set().contains(k) implies expired_keys_of(self.model@, now).contains(k) by {
                    let j = choose|j: int|
                        0 <= j < i && #[trigger] self.entries@[j]@.key == k && expired_at(
                            self.entries@[j]@.expires_at,
                            now,
                        );
                }
                assert forall|k: Seq<char>| expired_keys_of(self.model@, now).contains(k) implies text_list(out@).to_set().contains(k) by {
                    let j = choose|j: int| 0 <= j < self.entries@.len() && #[trigger] self.entries@[j]@.key == k;
                }
            }
        }
        out
    }

    /// The record under `key`, unless absent or expired; an expired record is dropped.
    pub fn read(&mut self, key: &str, now: i64) -> (r: Option<CachedArtifact>)
        requires
            old(self).wf(),
        ensures
            final(self).wf(),
            read_outcome(old(self).records(), final(self).records(), key@, now, opt_record(r)),
    {
        match self.position(key) {
            Some(i) => {
                if is_expired(self.entries[i].expires_at, now) {
                    self.remove(key);
                    None
                } else {
                    Some(self.entries[i].duplicate())
                }
            },
            None => {
                assert(self.model@.remove(key@) =~= self.model@);
                None
            },
        }
    }

    /// Removes the records under all of `keys`; returns how many there were.
    pub fn remove_all(&mut self, keys: &[String]) -> (r: usize)
        requires
            old(self).wf(),
        ensures
            final(self).wf(),
            r == count_removed(old(self).records(), text_list(keys@)),
            final(self).records() == old(self).records().remove_keys(text_list(keys@).to_set()),
    {
        let ghost all = text_list(keys@);
        let ghost start = self.model@;
        let mut count: usize = 0;
        let mut i: usize = 0;
        proof {
            assert(all.subrange(0, 0).to_set() =~= Set::<Seq<char>>::empty());
            assert(start.remove_keys(Set::empty()) =~= start);
            assert(all.subrange(0, all.len() as int) =~= all);
        }
        while i < keys.len()
            invariant
                i <= keys@.len(),
                all == text_list(keys@),
                self.wf(),
                self.model@ == start.remove_keys(all.subrange(0, i as int).to_set()),
                count + count_removed(self.model@, all.subrange(i as int, all.len() as int))
                    == count_removed(start, all),
                count <= i,
            decreases keys@.len() - i,
        {
            let ghost cur = self.model@;
            proof {
                assert(all.subrange(i as int, all.len() as int).drop_first() =~= all.subrange(
                    i + 1,
                    all.len() as int,
                ));
                assert(all.subrange(i as int, all.len() as int)[0] == keys@[i as int]@);
                lemma_push_to_set(all.subrange(0, i as int), keys@[i as int]@);
                assert(all.subrange(0, i as int).push(keys@[i as int]@) =~= all.subrange(0, i + 1));
            }
            let removed = self.remove(keys[i].as_str());
            if removed {
                count = count + 1;
            }
            proof {
                assert(self.model@ =~= start.remove_keys(all.subrange(0, i + 1).to_set()));
            }
            i = i + 1;
        }
        proof {
            assert(all.subrange(0, i as int) =~= all);
            assert(all.subrange(i as int, all.len() as int) =~= Seq::<Seq<char>>::empty());
        }
        count
    }

    /// Writes the record for `key`; refuses, and writes nothing, when the
    /// deadline is not after `now`.
    pub fn write(&mut self, key: String, artifact: ArtifactPayload, expires_at: Option<i64>, now: i64) -> (r:
        Result<CachedArtifact, AppError>)
        requires
            old(self).wf(),
        ensures
            final(self).wf(),
            expired_at(expires_at, now) ==> (r matches Err(e) && bad_request_with(
                e,
                "Artifact already expired"@,
            )) && final(self).records() == old(self).records(),
            !expired_at(expires_at, now) ==> (r matches Ok(c) && c@ == written(
                key@,
                artifact@,
                now,
                expires_at,
            ) && final(self).records() == old(self).records().insert(key@, c@)),
    {
        if is_expired(expires_at, now) {
            return Err(AppError::bad_request("Artifact already expired"));
        }
        let record = CachedArtifact { key, artifact, stored_at: now, expires_at };
        let reply = record.duplicate();
        self.insert_record(record);
        Ok(reply)
    }

    /// The keys that match `pattern` (`*` matches any run of characters), each once.
    pub fn keys_matching(&self, pattern: &str) -> (r: Vec<String>)
        requires
            self.wf(),
        ensures
            text_list(r@).to_set() == matching_keys(self.records(), pattern@),
    {
        let mut out: Vec<String> = Vec::new();
        let mut i: usize = 0;
        while i < self.entries.len()
            invariant
                i <= self.entries@.len(),
                self.wf(),
                forall|k: Seq<char>|
                    text_list(out@).contains(k) <==> exists|j: int|
                        0 <= j < i && #[trigger] self.entries@[j]@.key == k && glob(pattern@, k),
            decreases self.entries@.len() - i,
        {
            let ghost before = text_list(out@);
            if glob_match(pattern, self.entries[i].key.as_str()) {
                out.push(self.entries[i].key.clone());
                assert(text_list(out@) =~= before.push(self.entries@[i as int]@.key));
            } else {
                assert(text_list(out@) =~= before);
            }
            proof {
                assert forall|k: Seq<char>|
                    text_list(out@).contains(k) <==> exists|j: int|
                        0 <= j < i + 1 && #[trigger] self.entries@[j]@.key == k && glob(pattern@, k) by {
                    if text_list(out@).contains(k) {
                        let m = choose|m: int| 0 <= m < text_list(out@).len() && text_list(out@)[m] == k;
                        if m < before.len() {
                            assert(before[m] == k);
                            assert(before.contains(k));
                        } else {
                            assert(self.entries@[i as int]@.key == k);
                        }
                    }
                    if exists|j: int| 0 <= j < i + 1 && #[trigger] self.entries@[j]@.key == k && glob(pattern@, k) {
                        let j = choose|j: int| 0 <= j < i + 1 && #[trigger] self.entries@[j]@.key == k && glob(pattern@, k);
                        if j < i {
                            assert(before.contains(k));
                            let m = choose|m: int| 0 <= m < before.len() && before[m] == k;
                            assert(text_list(out@)[m] == k);
                        } else {
                            assert(text_list(out@)[before.len() as int] == k);
                        }
                    }
                }
            }
            i = i + 1;
        }
        proof {
            assert(text_list(out@).to_set() =~= matching_keys(self.model@, pattern@)) by {
                assert forall|k: Seq<char>| text_list(out@).to_set().contains(k) implies matching_keys(self.model@, pattern@).contains(k) by {
                    let j = choose|j: int| 0 <= j < i && #[trigger] self.entries@[j]@.key == k && glob(pattern@, k);
                }
                assert forall|k: Seq<char>| matching_keys(self.model@, pattern@).contains(k) implies text_list(out@).to_set().contains(k) by {
                    let j = choose|j: int| 0 <= j < self.entries@.len() && #[trigger] self.entries@[j]@.key == k;
                }
            }
        }
        out
    }

    /// Removes the record under `key`; true when there was one.
    pub fn remove(&mut self, key: &str) -> (r: bool)
        requires
            old(self).wf(),
        ensures
            final(self).wf(),
            r == old(self).records().contains_key(key@),
            final(self).records() == old(self).records().remove(key@),
    {
        match self.position(key) {
            Some(i) => {
                let ghost pre = self.entries@;
                self.entries.remove(i);
                self.model = Ghost(self.model@.remove(key@));
                assert forall|k: Seq<char>| #[trigger] self.model@.contains_key(k) implies exists|j: int|
                    0 <= j < self.entries@.len() && #[trigger] self.entries@[j]@.key == k by {
                    let j = choose|j: int| 0 <= j < pre.len() && #[trigger] pre[j]@.key == k;
                    assert(j != i);
                    if j < i {
                        assert(self.entries@[j]@.key == k);
                    } else {
                        assert(self.entries@[j - 1]@.key == k);
                    }
                }
                true
            },
            None => {
                assert(self.model@.remove(key@) =~= self.model@);
                false
            },
        }
    }
}

impl CacheBackend for MemoryBackend {
    open spec fn infallible(&self) -> bool {
        true
    }

    closed spec fn records(&self) -> Records {
        self.model@
    }

    closed spec fn wf(&self) -> bool {
        &&& forall|i: int, j: int|
            0 <= i < j < self.entries@.len() ==> self.entries@[i]@.key != self.entries@[j]@.key
        &&& forall|i: int|
            0 <= i < self.entries@.len() ==> self.model@.contains_key(#[trigger] self.entries@[i]@.key)
                && self.model@[self.entries@[i]@.key] == self.entries@[i]@
        &&& forall|k: Seq<char>|
            #[trigger] self.model@.contains_key(k) ==> exists|i: int|
                0 <= i < self.entries@.len() && #[trigger] self.entries@[i]@.key == k
    }

    fn get(&mut self, key: &str, now: i64) -> (r: Result<Option<CachedArtifact>, AppError>) {
        Ok(self.read(key, now))
    }

    fn set(&mut self, key: String, artifact: ArtifactPayload, expires_at: Option<i64>, now: i64) -> (r:
        Result<CachedArtifact, AppError>) {
        self.write(key, artifact, expires_at, now)
    }

    fn delete(&mut self, key: &str) -> (r: Result<bool, AppError>) {
        Ok(self.remove(key))
    }

    fn delete_many(&mut self, keys: &[String]) -> (r: Result<usize, AppError>) {
        Ok(self.remove_all(keys))
    }

    fn scan_by_pattern(&self, pattern: &str) -> (r: Result<Vec<String>, AppError>) {
        Ok(self.keys_matching(pattern))
    }
}

} // verus!
