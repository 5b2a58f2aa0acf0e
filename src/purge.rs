//! Selective purges: reading a set of keys, dropping what has expired on the way,
//! and choosing the live records that a criterion selects.
use vstd::prelude::*;
use crate::backend::{count_removed, opt_record, read_outcome, CacheBackend, Records};
use crate::cache::Cache;
use crate::error::AppError;
use crate::model::{references_capsule, references_hash, text_list, ArtifactPayload, ArtifactView};
use crate::ttl::expired_at;

verus! {

/// Which live records a selective purge removes.
#[derive(Debug, Clone)]
pub enum Criterion {
    /// Records whose artifact hash, or a provenance hash, equals the given hash.
    Hash(String),
    /// Records with a provenance source that contains the given capsule id.
    Capsule(String),
}

pub open spec fn selects(c: Criterion, a: ArtifactView) -> bool {
    match c {
        Criterion::Hash(h) => references_hash(a, h@),
        Criterion::Capsule(id) => references_capsule(a, id@),
    }
}

/// Keys of `scope` whose record in `m` has expired at `now`.
pub open spec fn expired_among(m: Records, scope: Set<Seq<char>>, now: i64) -> Set<Seq<char>> {
    Set::new(|k: Seq<char>| scope.contains(k) && m.contains_key(k) && expired_at(m[k].expires_at, now))
}

/// Keys of `scope` whose record in `m` is live at `now` and selected by `c`.
pub open spec fn live_selected(m: Records, scope: Set<Seq<char>>, c: Criterion, now: i64) -> Set<
    Seq<char>,
> {
    Set::new(
        |k: Seq<char>|
            scope.contains(k) && m.contains_key(k) && !expired_at(m[k].expires_at, now) && selects(
                c,
                m[k].artifact,
            ),
    )
}

/// The records left after a selective purge of `scope`: expired records are
/// collected on the way, and the live records that `c` selects are removed.
pub open spec fn after_selective_purge(m: Records, scope: Set<Seq<char>>, c: Criterion, now: i64) -> Records {
    m.remove_keys(expired_among(m, scope, now)).remove_keys(live_selected(m, scope, c, now))
}

pub proof fn lemma_to_set_cons(ks: Seq<Seq<char>>)
    requires
        ks.len() > 0,
    ensures
        ks.to_set() == ks.drop_first().to_set().insert(ks[0]),
{
    let rest = ks.drop_first();
    assert forall|x: Seq<char>| #[trigger] ks.to_set().contains(x) <==> rest.to_set().insert(ks[0]).contains(x) by {
        if ks.contains(x) {
            let i = choose|i: int| 0 <= i < ks.len() && ks[i] == x;
            if i > 0 {
                assert(rest[i - 1] == x);
            }
        }
        if rest.contains(x) {
            let i = choose|i: int| 0 <= i < rest.len() && rest[i] == x;
            assert(ks[i + 1] == x);
        }
        if x == ks[0] {
            assert(ks.contains(x));
        }
    }
    assert(ks.to_set() =~= rest.to_set().insert(ks[0]));
}

/// Deleting a list of keys removes as many records as there are distinct listed keys that hold one.
pub proof fn lemma_count_removed(m: Records, ks: Seq<Seq<char>>)
    ensures
        count_removed(m, ks) == m.dom().intersect(ks.to_set()).len(),
        m.dom().intersect(ks.to_set()).finite(),
    decreases ks.len(),
{
    if ks.len() == 0 {
        assert(m.dom().intersect(ks.to_set()) =~= Set::<Seq<char>>::empty());
    } else {
        let k = ks[0];
        let rest = ks.drop_first();
        let m2 = m.remove(k);
        lemma_count_removed(m2, rest);
        lemma_to_set_cons(ks);
        let a = m.dom().intersect(ks.to_set());
        let b = m2.dom().intersect(rest.to_set());
        if m.contains_key(k) {
            assert(a =~= b.insert(k));
            assert(!b.contains(k));
        } else {
            assert(a =~= b);
        }
    }
}

fn criterion_selects(c: &Criterion, a: &ArtifactPayload) -> (r: bool)
    ensures
        r == selects(*c, a@),
{
    match c {
        Criterion::Hash(h) => a.has_hash(h.as_str()),
        Criterion::Capsule(id) => a.has_capsule(id.as_str()),
    }
}

/// Reads each of `keys` at `now` and returns those whose record is live and
/// selected by `criterion`; expired records met on the way are dropped.
pub fn collect_matching<B: CacheBackend>(
    cache: &mut Cache<B>,
    keys: &Vec<String>,
    criterion: &Criterion,
    now: i64,
) -> (r: Result<Vec<String>, AppError>)
    requires
        old(cache).wf(),
    ensures
        final(cache).wf(),
        r matches Ok(sel) ==> final(cache).records() == old(cache).records().remove_keys(
            expired_among(old(cache).records(), text_list(keys@).to_set(), now),
        ) && text_list(sel@).to_set() == live_selected(
            old(cache).records(),
            text_list(keys@).to_set(),
            *criterion,
            now,
        ),
        r matches Err(e) ==> e is Internal,
        final(cache).infallible() == old(cache).infallible(),
        old(cache).infallible() ==> r is Ok,
{
    let ghost start = cache.records();
    let ghost all = text_list(keys@);
    let mut sel: Vec<String> = Vec::new();
    let mut i: usize = 0;
    proof {
        assert(all.subrange(0, 0).to_set() =~= Set::<Seq<char>>::empty());
        assert(start.remove_keys(expired_among(start, Set::empty(), now)) =~= start);
        assert(text_list(sel@).to_set() =~= live_selected(start, Set::empty(), *criterion, now));
    }
    while i < keys.len()
        invariant
            i <= keys@.len(),
            all == text_list(keys@),
            cache.wf(),
            cache.infallible() == old(cache).infallible(),
            cache.records() == start.remove_keys(
                expired_among(start, all.subrange(0, i as int).to_set(), now),
            ),
            text_list(sel@).to_set() == live_selected(
                start,
                all.subrange(0, i as int).to_set(),
                *criterion,
                now,
            ),
        decreases keys@.len() - i,
    {
        let ghost cur = cache.records();
        let ghost k = keys@[i as int]@;
        let ghost scope = all.subrange(0, i as int).to_set();
        let ghost scope2 = all.subrange(0, i + 1).to_set();
        let ghost before = text_list(sel@);
        proof {
            crate::backend::lemma_push_to_set(all.subrange(0, i as int), k);
            assert(all.subrange(0, i as int).push(k) =~= all.subrange(0, i + 1));
        }
        let found = cache.get(keys[i].as_str(), now)?;
        let ghost next = cache.records();
        match found {
            Some(record) => {
                proof {
                    assert(read_outcome(cur, next, k, now, opt_record(Some(record))));
                    assert(cur.contains_key(k) && !expired_at(cur[k].expires_at, now));
                    assert(start.contains_key(k) && start[k] == cur[k]);
                    assert(next =~= start.remove_keys(expired_among(start, scope2, now)));
                }
                if criterion_selects(criterion, &record.artifact) {
                    sel.push(keys[i].clone());
                    proof {
                        assert(text_list(sel@) =~= before.push(k));
                        crate::backend::lemma_push_to_set(before, k);
                        assert(text_list(sel@).to_set() =~= live_selected(
                            start,
                            scope2,
                            *criterion,
                            now,
                        ));
                    }
                } else {
                    proof {
                        assert(text_list(sel@) =~= before);
                        assert(text_list(sel@).to_set() =~= live_selected(
                            start,
                            scope2,
                            *criterion,
                            now,
                        ));
                    }
                }
            },
            None => {
                proof {
                    assert(next == cur.remove(k));
                    assert(!(start.contains_key(k) && !expired_at(start[k].expires_at, now)) || scope.contains(k)) by {
                        if start.contains_key(k) && !expired_at(start[k].expires_at, now) && !scope.contains(k) {
                            assert(cur.contains_key(k));
                            assert(cur[k] == start[k]);
                        }
                    }
                    assert(next =~= start.remove_keys(expired_among(start, scope2, now)));
                    assert(text_list(sel@).to_set() =~= live_selected(
                        start,
                        scope2,
                        *criterion,
                        now,
                    ));
                }
            },
        }
        i = i + 1;
    }
    proof {
        assert(all.subrange(0, i as int) =~= all);
    }
    Ok(sel)
}

} // verus!
