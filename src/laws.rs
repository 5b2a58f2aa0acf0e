//! Properties of the pipeline that span several calls, proved over the
//! contracts of the handlers.
use vstd::prelude::*;
use crate::api::{
    live, lookup_outcome, selective_purge_done, store_expiry_spec, store_refusal, AppState,
    LookupStep,
};
use crate::backend::{matching_keys, written, CacheBackend, Records};
use crate::error::{not_found_with, AppError};
use crate::events::{event_applied, GraphEvent};
use crate::metrics::counted_miss;
use crate::model::{references_hash, ArtifactView, LookupQuery};
use crate::policy::TenantView;
use crate::purge::{expired_among, live_selected, Criterion};
use crate::text::glob;
use crate::ttl::{effective_ttl_spec, expired_at, offset_spec};

verus! {

/// `*` matches every key.
pub proof fn lemma_star_matches_all(s: Seq<char>)
    ensures
        glob(seq!['*'], s),
    decreases s.len(),
{
    let p = seq!['*'];
    assert(p.len() == 1 && p[0] == '*');
    assert(p.drop_first() =~= Seq::<char>::empty());
    if s.len() > 0 {
        lemma_star_matches_all(s.drop_first());
        assert(glob(p, s.drop_first()));
    } else {
        assert(glob(p.drop_first(), s));
    }
}

/// Every key of `m` matches `*`.
pub proof fn lemma_star_scope(m: Records)
    ensures
        matching_keys(m, "*"@) == m.dom(),
{
    reveal_strlit("*");
    assert("*"@ =~= seq!['*']);
    assert forall|k: Seq<char>| m.dom().contains(k) implies #[trigger] glob("*"@, k) by {
        lemma_star_matches_all(k);
    }
    assert(matching_keys(m, "*"@) =~= m.dom());
}

/// Expiry is honoured: once its deadline has passed, a record is not served by
/// a lookup, and the lookup removes it.
pub proof fn law_expired_record_not_served<B: CacheBackend>(
    before: AppState<B>,
    after: AppState<B>,
    query: LookupQuery,
    api_key: Option<&str>,
    now: i64,
    r: Result<LookupStep, AppError>,
)
    requires
        before.cache.records().contains_key(query.key@),
        expired_at(before.cache.records()[query.key@].expires_at, now),
        lookup_outcome(before, after, query, api_key, now, r),
    ensures
        !after.cache.records().contains_key(query.key@),
        !(r matches Ok(LookupStep::Served(_))),
{
}

/// Round trip: after a store at `stored_at`, a lookup without a tenant or key
/// at any instant before the deadline serves the stored artifact, with no more
/// time left than the effective TTL.
pub proof fn law_store_then_lookup<B: CacheBackend>(
    prior: Records,
    key: Seq<char>,
    artifact: ArtifactView,
    default_ttl: u64,
    stored_at: i64,
    before: AppState<B>,
    after: AppState<B>,
    query: LookupQuery,
    now: i64,
    r: Result<LookupStep, AppError>,
)
    requires
        before.cache.records() == prior.insert(
            key,
            written(key, artifact, stored_at, store_expiry_spec(artifact, default_ttl, stored_at)),
        ),
        query.key@ == key,
        query.tenant is None,
        stored_at <= now,
        !expired_at(store_expiry_spec(artifact, default_ttl, stored_at), now),
        lookup_outcome(before, after, query, None, now, r),
    ensures
        r matches Ok(LookupStep::Served(resp)) && resp.artifact@ == artifact && (
        resp.ttl_remaining_seconds matches Some(n) ==> n <= effective_ttl_spec(
            artifact.ttl_seconds,
            default_ttl,
        )),
{
    let ttl = effective_ttl_spec(artifact.ttl_seconds, default_ttl);
    let exp = store_expiry_spec(artifact, default_ttl, stored_at);
    assert(live(before.cache.records(), key, now));
    if let Some(d) = exp {
        assert(d == offset_spec(stored_at, ttl));
        assert(d <= stored_at + ttl * 1000);
        let x: int = d - now;
        assert(x <= ttl * 1000);
        if x > 0 {
            assert(x / 1000 <= ttl) by (nonlinear_arith)
                requires
                    x <= ttl * 1000,
                    x > 0,
            ;
        }
    }
}

/// Tenant isolation: a lookup that names another tenant than the record's is
/// a miss, counted as a miss, even though the record is live.
pub proof fn law_tenant_isolation<B: CacheBackend>(
    before: AppState<B>,
    after: AppState<B>,
    query: LookupQuery,
    api_key: Option<&str>,
    now: i64,
    r: Result<LookupStep, AppError>,
)
    requires
        live(before.cache.records(), query.key@, now),
        query.tenant is Some,
        query.tenant->0@ != before.cache.records()[query.key@].artifact.policy.tenant,
        lookup_outcome(before, after, query, api_key, now, r),
    ensures
        r matches Err(e) && not_found_with(e, "cache miss"@),
        after.metrics == counted_miss(before.metrics),
        after.cache.records() == before.cache.records(),
{
}

/// TTL ceiling: a store whose TTL exceeds the tenant's ceiling is refused as a
/// bad request (and `handle_store` then writes nothing).
pub proof fn law_ttl_ceiling(
    tenants: Map<Seq<char>, TenantView>,
    key: Seq<char>,
    artifact: ArtifactView,
    api_key: Option<&str>,
)
    requires
        tenants.contains_key(artifact.policy.tenant),
        tenants[artifact.policy.tenant].max_ttl_seconds is Some,
        artifact.ttl_seconds is Some,
        artifact.ttl_seconds->0 > tenants[artifact.policy.tenant].max_ttl_seconds->0,
    ensures
        store_refusal(tenants, key, artifact, api_key) is Some,
{
}

/// Purge by provenance is complete and exact: after purging hash `h` over all
/// keys, no live record that references `h` is left, every live record that
/// does not is left unchanged, and nothing new appears.
pub proof fn law_provenance_purge_complete(before: Records, after: Records, h: String, now: i64, purged: nat)
    requires
        selective_purge_done(before, after, matching_keys(before, "*"@), Criterion::Hash(h), now, purged),
    ensures
        forall|k: Seq<char>|
            #[trigger] before.contains_key(k) && !expired_at(before[k].expires_at, now) && references_hash(
                before[k].artifact,
                h@,
            ) ==> !after.contains_key(k),
        forall|k: Seq<char>|
            #[trigger] before.contains_key(k) && !expired_at(before[k].expires_at, now) && !references_hash(
                before[k].artifact,
                h@,
            ) ==> after.contains_key(k) && after[k] == before[k],
        forall|k: Seq<char>| #[trigger] after.contains_key(k) ==> before.contains_key(k) && after[k] == before[k],
{
    lemma_star_scope(before);
    let scope = matching_keys(before, "*"@);
    let c = Criterion::Hash(h);
    assert forall|k: Seq<char>|
        #[trigger] before.contains_key(k) && !expired_at(before[k].expires_at, now) && references_hash(
            before[k].artifact,
            h@,
        ) implies !after.contains_key(k) by {
        assert(live_selected(before, scope, c, now).contains(k));
    }
    assert forall|k: Seq<char>|
        #[trigger] before.contains_key(k) && !expired_at(before[k].expires_at, now) && !references_hash(
            before[k].artifact,
            h@,
        ) implies after.contains_key(k) && after[k] == before[k] by {
        assert(!expired_among(before, scope, now).contains(k));
        assert(!live_selected(before, scope, c, now).contains(k));
    }
}

/// Invalidating a tenant is idempotent: delivering the same event again leaves
/// the records as the first delivery left them and purges nothing.
pub proof fn law_invalidate_tenant_idempotent(
    tenant: String,
    first: Records,
    second: Records,
    third: Records,
    now1: i64,
    now2: i64,
    n1: nat,
    n2: nat,
)
    requires
        event_applied(GraphEvent::InvalidateTenant { tenant }, first, second, now1, n1),
        event_applied(GraphEvent::InvalidateTenant { tenant }, second, third, now2, n2),
    ensures
        third == second,
        n2 == 0,
{
    let p = crate::api::tenant_pattern(tenant@);
    assert(matching_keys(second, p) =~= Set::<Seq<char>>::empty());
    assert(third =~= second);
}

/// Upstream failures do not poison the cache: when hydration left the records
/// as they were (as `complete_hydration` does on an upstream error), a later
/// lookup of the key that missed is a miss again.
pub proof fn law_upstream_failure_keeps_miss<B: CacheBackend>(
    missed: Records,
    key_missed_at: i64,
    before: AppState<B>,
    after: AppState<B>,
    query: LookupQuery,
    api_key: Option<&str>,
    now: i64,
    r: Result<LookupStep, AppError>,
)
    requires
        !live(missed, query.key@, key_missed_at),
        before.cache.records() == missed,
        key_missed_at <= now,
        lookup_outcome(before, after, query, api_key, now, r),
    ensures
        !(r matches Ok(LookupStep::Served(_))),
{
}

} // verus!
