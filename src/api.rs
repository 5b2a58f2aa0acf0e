//! The request pipeline: store, lookup (with hydration from upstream) and purge.
//!
//! Each handler takes the current instant `now` in milliseconds since the Unix
//! epoch and the API key presented by the caller, if any.
use vstd::prelude::*;
use crate::backend::{count_removed, matching_keys, written, CacheBackend, Records};
use crate::cache::Cache;
use crate::error::{bad_request_with, not_found_with, AppError};
use crate::metrics::{
    counted_hit, counted_miss, counted_purge, counted_store, counted_upstream_failure,
    counted_upstream_request, Metrics,
};
use crate::model::{
    opt_text, text_list, ArtifactView, LookupQuery, LookupResponse, PurgeRequest, PurgeResponse,
    RecordView, StoreRequest, StoreResponse, StoreStatus, ttl_remaining_spec,
};
use crate::policy::{
    presented_key_refusal, region_error_text, region_refused, ttl_error_text, ttl_refused,
    PolicyEngine, TenantView,
};
use crate::purge::{
    after_selective_purge, collect_matching, lemma_count_removed, live_selected, Criterion,
};
use crate::text::{blank, is_blank};
use crate::ttl::{
    effective_ttl_spec, expired_at, expiry_for_ttl, hydration_expiry, hydration_expiry_spec,
    store_expiry,
};
use crate::upstream::UpstreamConfig;

verus! {

/// Everything a handler works with.
pub struct AppState<B: CacheBackend> {
    pub cache: Cache<B>,
    pub metrics: Metrics,
    pub policy: PolicyEngine,
    pub default_ttl_seconds: u64,
    /// Set when misses may be hydrated from an upstream service.
    pub upstream: Option<UpstreamConfig>,
}

/// Next step of a lookup.
#[derive(Debug, Clone)]
pub enum LookupStep {
    /// The record was served from the cache.
    Served(LookupResponse),
    /// A miss with an upstream configured: ask it, then call `complete_hydration`.
    FetchUpstream,
}

/// A tenant was named by the caller and it is not `stored`.
pub open spec fn tenant_mismatch(asked: Option<Seq<char>>, stored: Seq<char>) -> bool {
    asked is Some && asked->0 != stored
}

/// Why a store is refused before anything is written, if it is. The checks
/// run in this order: key, hash, API key, TTL ceiling, region.
pub open spec fn store_refusal(
    t: Map<Seq<char>, TenantView>,
    key: Seq<char>,
    a: ArtifactView,
    api_key: Option<&str>,
) -> Option<Seq<char>> {
    let tenant = a.policy.tenant;
    if blank(key) {
        Some("key is required"@)
    } else if blank(a.hash) {
        Some("artifact hash is required"@)
    } else if presented_key_refusal(t, tenant, api_key) is Some {
        presented_key_refusal(t, tenant, api_key)
    } else if ttl_refused(t, tenant, a.ttl_seconds) {
        Some(ttl_error_text(a.ttl_seconds->0, t[tenant].max_ttl_seconds->0, tenant))
    } else if region_refused(t, tenant, a.policy.region) {
        Some(region_error_text(a.policy.region->0, tenant))
    } else {
        None
    }
}

/// Expiry given to a record stored at `now`.
pub open spec fn store_expiry_spec(a: ArtifactView, default_ttl: u64, now: i64) -> Option<i64> {
    expiry_for_ttl(effective_ttl_spec(a.ttl_seconds, default_ttl), now)
}

/// `resp` serves `rec` at `now`.
pub open spec fn serves(resp: LookupResponse, rec: RecordView, now: i64) -> bool {
    &&& resp.key@ == rec.key
    &&& resp.artifact@ == rec.artifact
    &&& resp.expires_at == rec.expires_at
    &&& resp.ttl_remaining_seconds == ttl_remaining_spec(rec.expires_at, now)
}

/// The record under `key` is present and live at `now`.
pub open spec fn live(m: Records, key: Seq<char>, now: i64) -> bool {
    m.contains_key(key) && !expired_at(m[key].expires_at, now)
}

impl<B: CacheBackend> AppState<B> {
    pub open spec fn wf(&self) -> bool {
        self.cache.wf() && self.policy.wf()
    }

    /// Everything but the cache contents and the counters is as in `other`.
    pub open spec fn same_config(&self, other: &Self) -> bool {
        &&& self.cache.infallible() == other.cache.infallible()
        &&& self.policy == other.policy
        &&& self.default_ttl_seconds == other.default_ttl_seconds
        &&& self.upstream == other.upstream
    }

    pub fn new(
        cache: Cache<B>,
        policy: PolicyEngine,
        default_ttl_seconds: u64,
        upstream: Option<UpstreamConfig>,
    ) -> (r: Self)
        ensures
            r.cache == cache,
            r.policy == policy,
            r.metrics == Metrics::new_spec(),
            r.default_ttl_seconds == default_ttl_seconds,
            r.upstream == upstream,
    {
        AppState { cache, metrics: Metrics::new(), policy, default_ttl_seconds, upstream }
    }
}

/// Stores an artifact under a key after the policy checks; the record expires
/// after the artifact's own TTL when positive, else after the default TTL, and
/// never when that is zero.
pub fn handle_store<B: CacheBackend>(
    state: &mut AppState<B>,
    request: StoreRequest,
    api_key: Option<&str>,
    now: i64,
) -> (r: Result<StoreResponse, AppError>)
    requires
        old(state).wf(),
    ensures
        final(state).wf(),
        final(state).same_config(old(state)),
        match store_refusal(
            old(state).policy.tenants(),
            request.key@,
            request.artifact@,
            api_key,
        ) {
            Some(m) => r matches Err(e) && bad_request_with(e, m) && final(state).cache.records()
                == old(state).cache.records() && final(state).metrics == old(state).metrics,
            None => {
                let exp = store_expiry_spec(request.artifact@, old(state).default_ttl_seconds, now);
                match r {
                    Ok(resp) => {
                        &&& final(state).cache.records() == old(state).cache.records().insert(
                            request.key@,
                            written(request.key@, request.artifact@, now, exp),
                        )
                        &&& resp.key@ == request.key@
                        &&& resp.status == StoreStatus::Created
                        &&& resp.hash@ == request.artifact@.hash
                        &&& resp.expires_at == exp
                        &&& final(state).metrics == counted_store(old(state).metrics)
                    },
                    Err(e) => {
                        &&& final(state).cache.records() == old(state).cache.records()
                        &&& final(state).metrics == old(state).metrics
                        &&& (e is Internal || (expired_at(exp, now) && bad_request_with(
                            e,
                            "Artifact already expired"@,
                        )))
                        &&& !(old(state).cache.infallible() && !expired_at(exp, now))
                    },
                }
            },
        },
{
    if is_blank(request.key.as_str()) {
        return Err(AppError::bad_request("key is required"));
    }
    if is_blank(request.artifact.hash.as_str()) {
        return Err(AppError::bad_request("artifact hash is required"));
    }
    let tenant = request.artifact.policy.tenant.as_str();
    if let Some(k) = api_key {
        state.policy.validate_api_key(tenant, k)?;
    }
    state.policy.validate_ttl(tenant, request.artifact.ttl_seconds)?;
    let region = match &request.artifact.policy.region {
        Some(x) => Some(x.as_str()),
        None => None,
    };
    state.policy.validate_region(tenant, region)?;
    state.policy.validate_compliance(
        tenant,
        request.artifact.policy.phi,
        request.artifact.policy.pii,
    )?;
    let expires_at = store_expiry(request.artifact.ttl_seconds, state.default_ttl_seconds, now);
    let cached = state.cache.set(request.key, request.artifact, expires_at, now)?;
    state.metrics.record_cache_store();
    Ok(StoreResponse {
        key: cached.key,
        status: StoreStatus::Created,
        hash: cached.artifact.hash,
        expires_at: cached.expires_at,
    })
}

/// What a lookup of a key that passed the blank check does, once the backend
/// read has succeeded.
pub open spec fn lookup_outcome<B: CacheBackend>(
    before: AppState<B>,
    after: AppState<B>,
    query: LookupQuery,
    api_key: Option<&str>,
    now: i64,
    r: Result<LookupStep, AppError>,
) -> bool {
    let m = before.cache.records();
    let k = query.key@;
    if live(m, k, now) {
        let rec = m[k];
        &&& after.cache.records() == m
        &&& if tenant_mismatch(opt_text(query.tenant), rec.artifact.policy.tenant) {
            r matches Err(e) && not_found_with(e, "cache miss"@) && after.metrics == counted_miss(
                before.metrics,
            )
        } else if presented_key_refusal(before.policy.tenants(), rec.artifact.policy.tenant, api_key) is Some {
            &&& r matches Err(e) && bad_request_with(
                e,
                presented_key_refusal(before.policy.tenants(), rec.artifact.policy.tenant, api_key)->0,
            )
            &&& after.metrics == before.metrics
        } else {
            r matches Ok(LookupStep::Served(resp)) && serves(resp, rec, now) && after.metrics
                == counted_hit(before.metrics)
        }
    } else {
        &&& after.cache.records() == m.remove(k)
        &&& if before.upstream is None {
            r matches Err(e) && not_found_with(e, "cache miss"@) && after.metrics == counted_miss(
                before.metrics,
            )
        } else {
            r matches Ok(LookupStep::FetchUpstream) && after.metrics == counted_upstream_request(
                counted_miss(before.metrics),
            )
        }
    }
}

/// Looks a key up. A live record is served unless the caller named another
/// tenant (reported as a plain miss) or presented a key that the record's
/// tenant refuses. An expired record is dropped. On a miss with an upstream
/// configured the caller is asked to fetch from it.
pub fn handle_lookup<B: CacheBackend>(
    state: &mut AppState<B>,
    query: &LookupQuery,
    api_key: Option<&str>,
    now: i64,
) -> (r: Result<LookupStep, AppError>)
    requires
        old(state).wf(),
    ensures
        final(state).wf(),
        final(state).same_config(old(state)),
        blank(query.key@) ==> (r matches Err(e) && bad_request_with(
            e,
            "key query parameter is required"@,
        ) && final(state).cache.records() == old(state).cache.records() && final(state).metrics
            == old(state).metrics),
        (!blank(query.key@) && r matches Err(AppError::Internal(_))) ==> final(state).cache.records()
            == old(state).cache.records() && final(state).metrics == old(state).metrics
            && !old(state).cache.infallible(),
        !blank(query.key@) && !(r matches Err(AppError::Internal(_))) ==> lookup_outcome(
            *old(state),
            *final(state),
            *query,
            api_key,
            now,
            r,
        ),
{
    if is_blank(query.key.as_str()) {
        return Err(AppError::bad_request("key query parameter is required"));
    }
    let found = state.cache.get(query.key.as_str(), now)?;
    match found {
        Some(record) => {
            if let Some(asked) = &query.tenant {
                if !crate::text::same_text(asked.as_str(), record.artifact.policy.tenant.as_str()) {
                    state.metrics.record_cache_miss();
                    return Err(AppError::not_found("cache miss"));
                }
            }
            if let Some(k) = api_key {
                state.policy.validate_api_key(record.artifact.policy.tenant.as_str(), k)?;
            }
            state.metrics.record_cache_hit();
            let ttl_remaining = record.ttl_remaining_seconds(now);
            Ok(
                LookupStep::Served(
                    LookupResponse {
                        key: record.key,
                        artifact: record.artifact,
                        expires_at: record.expires_at,
                        ttl_remaining_seconds: ttl_remaining,
                    },
                ),
            )
        },
        None => {
            state.metrics.record_cache_miss();
            if state.upstream.is_none() {
                return Err(AppError::not_found("cache miss"));
            }
            state.metrics.record_upstream_request();
            Ok(LookupStep::FetchUpstream)
        },
    }
}

/// Finishes a lookup that missed, from what the upstream answered: a record, no
/// record, or an error. A record is refused when the caller named another
/// tenant (counted as an upstream failure) or presented a key that its tenant
/// refuses; otherwise it is written under the requested key and served. Nothing
/// is written unless a record came back and passed these checks.
pub fn complete_hydration<B: CacheBackend>(
    state: &mut AppState<B>,
    query: &LookupQuery,
    api_key: Option<&str>,
    fetched: Result<Option<LookupResponse>, AppError>,
    now: i64,
) -> (r: Result<LookupResponse, AppError>)
    requires
        old(state).wf(),
    ensures
        final(state).wf(),
        final(state).same_config(old(state)),
        match fetched {
            Err(e0) => r == Err::<LookupResponse, AppError>(e0) && final(state).cache.records()
                == old(state).cache.records() && final(state).metrics == counted_upstream_failure(
                old(state).metrics,
            ),
            Ok(None) => r matches Err(e) && not_found_with(e, "cache miss"@)
                && final(state).cache.records() == old(state).cache.records()
                && final(state).metrics == old(state).metrics,
            Ok(Some(u)) => if tenant_mismatch(opt_text(query.tenant), u.artifact@.policy.tenant) {
                r matches Err(e) && not_found_with(e, "cache miss"@)
                    && final(state).cache.records() == old(state).cache.records()
                    && final(state).metrics == counted_upstream_failure(old(state).metrics)
            } else if presented_key_refusal(
                old(state).policy.tenants(),
                u.artifact@.policy.tenant,
                api_key,
            ) is Some {
                r matches Err(e) && bad_request_with(
                    e,
                    presented_key_refusal(
                        old(state).policy.tenants(),
                        u.artifact@.policy.tenant,
                        api_key,
                    )->0,
                ) && final(state).cache.records() == old(state).cache.records()
                    && final(state).metrics == old(state).metrics
            } else {
                let exp = hydration_expiry_spec(
                    u.expires_at,
                    u.ttl_remaining_seconds,
                    u.artifact.ttl_seconds,
                    old(state).default_ttl_seconds,
                    now,
                );
                let rec = written(query.key@, u.artifact@, now, exp);
                match r {
                    Ok(resp) => final(state).cache.records() == old(state).cache.records().insert(
                        query.key@,
                        rec,
                    ) && serves(resp, rec, now) && final(state).metrics == counted_store(
                        old(state).metrics,
                    ),
                    Err(e) => final(state).cache.records() == old(state).cache.records()
                        && final(state).metrics == old(state).metrics && (e is Internal || (
                    expired_at(exp, now) && bad_request_with(e, "Artifact already expired"@)))
                        && !(old(state).cache.infallible() && !expired_at(exp, now)),
                }
            },
        },
{
    let upstream_record = match fetched {
        Err(e) => {
            state.metrics.record_upstream_failure();
            return Err(e);
        },
        Ok(None) => {
            return Err(AppError::not_found("cache miss"));
        },
        Ok(Some(u)) => u,
    };
    if let Some(asked) = &query.tenant {
        if !crate::text::same_text(
            asked.as_str(),
            upstream_record.artifact.policy.tenant.as_str(),
        ) {
            state.metrics.record_upstream_failure();
            return Err(AppError::not_found("cache miss"));
        }
    }
    if let Some(k) = api_key {
        state.policy.validate_api_key(upstream_record.artifact.policy.tenant.as_str(), k)?;
    }
    let expires_at = hydration_expiry(
        upstream_record.expires_at,
        upstream_record.ttl_remaining_seconds,
        upstream_record.artifact.ttl_seconds,
        state.default_ttl_seconds,
        now,
    );
    let cached = state.cache.set(query.key.clone(), upstream_record.artifact, expires_at, now)?;
    state.metrics.record_cache_store();
    let ttl_remaining = cached.ttl_remaining_seconds(now);
    Ok(
        LookupResponse {
            key: cached.key,
            artifact: cached.artifact,
            expires_at: cached.expires_at,
            ttl_remaining_seconds: ttl_remaining,
        },
    )
}

/// The pattern that selects every key of a tenant: `<tenant>:*`.
pub open spec fn tenant_pattern(tenant: Seq<char>) -> Seq<char> {
    tenant + ":*"@
}

/// The records and count left by a purge of the live records of `scope` that
/// `c` selects, where expired records of `scope` are collected on the way.
pub open spec fn selective_purge_done(
    before: Records,
    after: Records,
    scope: Set<Seq<char>>,
    c: Criterion,
    now: i64,
    purged: nat,
) -> bool {
    after == after_selective_purge(before, scope, c, now) && purged == live_selected(
        before,
        scope,
        c,
        now,
    ).len()
}

/// Builds `<tenant>:*`.
pub fn tenant_scan_pattern(tenant: &str) -> (r: String)
    ensures
        r@ == tenant_pattern(tenant@),
{
    let mut p = tenant.to_string();
    p.append(":*");
    p
}

/// Removes every record whose key matches `pattern`; returns how many.
pub fn purge_pattern<B: CacheBackend>(cache: &mut Cache<B>, pattern: &str) -> (r: Result<usize, AppError>)
    requires
        old(cache).wf(),
    ensures
        final(cache).wf(),
        r matches Ok(n) ==> final(cache).records() == old(cache).records().remove_keys(
            matching_keys(old(cache).records(), pattern@),
        ) && n == matching_keys(old(cache).records(), pattern@).len(),
        r matches Err(e) ==> e is Internal,
        final(cache).infallible() == old(cache).infallible(),
        old(cache).infallible() ==> r is Ok,
{
    let ghost before = cache.records();
    let keys = cache.scan_by_pattern(pattern)?;
    let n = cache.delete_many(keys.as_slice())?;
    proof {
        lemma_count_removed(before, text_list(keys@));
        assert(before.dom().intersect(text_list(keys@).to_set()) =~= matching_keys(before, pattern@));
    }
    Ok(n)
}

/// Reads the records whose key matches `pattern` and removes the live ones that
/// `criterion` selects (expired ones met on the way are dropped); returns how
/// many live records were removed.
pub fn purge_selected<B: CacheBackend>(
    cache: &mut Cache<B>,
    pattern: &str,
    criterion: &Criterion,
    now: i64,
) -> (r: Result<usize, AppError>)
    requires
        old(cache).wf(),
    ensures
        final(cache).wf(),
        r matches Ok(n) ==> selective_purge_done(
            old(cache).records(),
            final(cache).records(),
            matching_keys(old(cache).records(), pattern@),
            *criterion,
            now,
            n as nat,
        ),
        r matches Err(e) ==> e is Internal,
        final(cache).infallible() == old(cache).infallible(),
        old(cache).infallible() ==> r is Ok,
{
    let ghost before = cache.records();
    let keys = cache.scan_by_pattern(pattern)?;
    let ghost scope = text_list(keys@).to_set();
    let chosen = collect_matching(cache, &keys, criterion, now)?;
    let ghost mid = cache.records();
    let n = cache.delete_many(chosen.as_slice())?;
    proof {
        lemma_count_removed(mid, text_list(chosen@));
        assert(mid.dom().intersect(text_list(chosen@).to_set()) =~= live_selected(
            before,
            scope,
            *criterion,
            now,
        ));
    }
    Ok(n)
}

/// Purges by explicit keys, else by tenant, else by provenance hash; with none
/// of them the request is refused. When a tenant is named and a key presented,
/// the key is checked against that tenant first.
pub fn handle_purge<B: CacheBackend>(
    state: &mut AppState<B>,
    request: &PurgeRequest,
    api_key: Option<&str>,
    now: i64,
) -> (r: Result<PurgeResponse, AppError>)
    requires
        old(state).wf(),
    ensures
        final(state).wf(),
        final(state).same_config(old(state)),
        r is Err ==> final(state).metrics == old(state).metrics,
        r matches Ok(resp) ==> final(state).metrics == counted_purge(
            old(state).metrics,
            resp.purged as nat,
        ),
        if request.tenant is Some && presented_key_refusal(
            old(state).policy.tenants(),
            request.tenant->0@,
            api_key,
        ) is Some {
            r matches Err(e) && bad_request_with(
                e,
                presented_key_refusal(old(state).policy.tenants(), request.tenant->0@, api_key)->0,
            ) && final(state).cache.records() == old(state).cache.records()
        } else if request.keys@.len() > 0 {
            &&& r matches Ok(resp) ==> final(state).cache.records()
                == old(state).cache.records().remove_keys(text_list(request.keys@).to_set())
                && resp.purged == count_removed(old(state).cache.records(), text_list(request.keys@))
            &&& r matches Err(e) ==> e is Internal && !old(state).cache.infallible()
        } else if request.tenant is Some {
            let pattern = tenant_pattern(request.tenant->0@);
            &&& r matches Ok(resp) ==> final(state).cache.records()
                == old(state).cache.records().remove_keys(
                matching_keys(old(state).cache.records(), pattern),
            ) && resp.purged == matching_keys(old(state).cache.records(), pattern).len()
            &&& r matches Err(e) ==> e is Internal && !old(state).cache.infallible()
        } else if request.provenance_hash is Some {
            &&& r matches Ok(resp) ==> selective_purge_done(
                old(state).cache.records(),
                final(state).cache.records(),
                matching_keys(old(state).cache.records(), "*"@),
                Criterion::Hash(request.provenance_hash->0),
                now,
                resp.purged as nat,
            )
            &&& r matches Err(e) ==> e is Internal && !old(state).cache.infallible()
        } else {
            r matches Err(e) && bad_request_with(
                e,
                "must specify keys, tenant, or provenance_hash"@,
            ) && final(state).cache.records() == old(state).cache.records()
        },
{
    if let Some(t) = &request.tenant {
        if let Some(k) = api_key {
            state.policy.validate_api_key(t.as_str(), k)?;
        }
    }
    let purged: usize;
    if request.keys.len() > 0 {
        purged = state.cache.delete_many(request.keys.as_slice())?;
    } else if let Some(t) = &request.tenant {
        let pattern = tenant_scan_pattern(t.as_str());
        purged = purge_pattern(&mut state.cache, pattern.as_str())?;
    } else if let Some(h) = &request.provenance_hash {
        let criterion = Criterion::Hash(h.clone());
        proof {
            assert(criterion == Criterion::Hash(request.provenance_hash->0)) by {
                assert(h@ == request.provenance_hash->0@);
            }
        }
        purged = purge_selected(&mut state.cache, "*", &criterion, now)?;
    } else {
        return Err(AppError::bad_request("must specify keys, tenant, or provenance_hash"));
    }
    state.metrics.record_cache_purge(purged);
    Ok(PurgeResponse { purged })
}

} // verus!
