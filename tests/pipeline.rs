use scedge::api::{
    complete_hydration, handle_lookup, handle_purge, handle_store, AppState, LookupStep,
};
use scedge::backend::MemoryBackend;
use scedge::cache::Cache;
use scedge::error::AppError;
use scedge::events::{handle_event, GraphEvent};
use scedge::metrics::Metrics;
use scedge::model::{
    ArtifactPayload, LookupQuery, LookupResponse, PolicyContext, ProvenanceInfo, PurgeRequest,
    StoreRequest, StoreStatus,
};
use scedge::policy::{PolicyEngine, TenantConfig};
use scedge::upstream::UpstreamConfig;

const NOW: i64 = 1_700_000_000_000;

fn artifact(tenant: &str, hash: &str, ttl: Option<u64>) -> ArtifactPayload {
    ArtifactPayload {
        answer: "\"hi\"".to_string(),
        policy: PolicyContext {
            tenant: tenant.to_string(),
            phi: false,
            pii: false,
            region: None,
            compliance_tags: vec![],
        },
        provenance: vec![],
        metrics: None,
        ttl_seconds: ttl,
        hash: hash.to_string(),
        metadata: None,
    }
}

fn with_provenance(mut a: ArtifactPayload, source: &str, hash: Option<&str>) -> ArtifactPayload {
    a.provenance.push(ProvenanceInfo {
        source: source.to_string(),
        hash: hash.map(|h| h.to_string()),
        version: None,
        generated_at: None,
    });
    a
}

fn state() -> AppState<MemoryBackend> {
    AppState {
        cache: Cache::new(MemoryBackend::new()),
        metrics: Metrics::new(),
        policy: PolicyEngine::new(None),
        default_ttl_seconds: 86400,
        upstream: None,
    }
}

fn state_with_upstream() -> AppState<MemoryBackend> {
    let mut s = state();
    s.upstream = Some(UpstreamConfig { base_url: "http://upstream".to_string(), timeout_secs: 5 });
    s
}

fn tenant(id: &str, key: &str, max_ttl: Option<u64>, regions: Vec<&str>) -> TenantConfig {
    TenantConfig {
        tenant_id: id.to_string(),
        api_key: key.to_string(),
        allowed_regions: regions.into_iter().map(|r| r.to_string()).collect(),
        max_ttl_seconds: max_ttl,
        require_phi_compliance: false,
        require_pii_compliance: false,
    }
}

fn store(s: &mut AppState<MemoryBackend>, key: &str, a: ArtifactPayload, now: i64) {
    handle_store(s, StoreRequest { key: key.to_string(), artifact: a }, None, now).unwrap();
}

fn query(key: &str, tenant: Option<&str>) -> LookupQuery {
    LookupQuery { key: key.to_string(), tenant: tenant.map(|t| t.to_string()) }
}

fn served(r: Result<LookupStep, AppError>) -> LookupResponse {
    match r {
        Ok(LookupStep::Served(resp)) => resp,
        other => panic!("expected a hit, got {:?}", other),
    }
}

fn assert_error(r: Result<impl std::fmt::Debug, AppError>, status: u16, message: &str) {
    match r {
        Err(e) => {
            assert_eq!(e.status_code(), status);
            assert_eq!(e.message(), message);
        }
        Ok(v) => panic!("expected an error, got {:?}", v),
    }
}

#[test]
fn store_then_immediate_lookup() {
    let mut s = state();
    let resp = handle_store(
        &mut s,
        StoreRequest { key: "t1:greeting".to_string(), artifact: artifact("t1", "h1", Some(60)) },
        None,
        NOW,
    )
    .unwrap();
    assert_eq!(resp.key, "t1:greeting");
    assert_eq!(resp.status, StoreStatus::Created);
    assert_eq!(resp.status.as_text(), "created");
    assert_eq!(resp.hash, "h1");
    assert_eq!(resp.expires_at, Some(NOW + 60_000));

    let hit = served(handle_lookup(&mut s, &query("t1:greeting", None), None, NOW + 1_500));
    let n = hit.ttl_remaining_seconds.unwrap();
    assert!((58..=60).contains(&n));
    assert_eq!(n, 58);
    assert_eq!(hit.artifact.answer, "\"hi\"");
    assert_eq!(s.metrics.cache_hits, 1);
    assert_eq!(s.metrics.cache_stores, 1);
}

#[test]
fn tenant_mismatch_lookup_is_a_miss() {
    let mut s = state();
    store(&mut s, "t1:greeting", artifact("t1", "h1", Some(60)), NOW);
    let r = handle_lookup(&mut s, &query("t1:greeting", Some("t2")), None, NOW + 10);
    assert_error(r, 404, "cache miss");
    assert_eq!(s.metrics.cache_misses, 1);
    assert_eq!(s.metrics.cache_hits, 0);
    // The record is still there for its own tenant.
    served(handle_lookup(&mut s, &query("t1:greeting", Some("t1")), None, NOW + 10));
}

#[test]
fn ttl_ceiling_rejection() {
    let mut s = state();
    s.policy.add_tenant(tenant("t1", "k1", Some(3600), vec![]));
    let r = handle_store(
        &mut s,
        StoreRequest { key: "t1:x".to_string(), artifact: artifact("t1", "h", Some(7200)) },
        None,
        NOW,
    );
    assert_error(r, 400, "TTL 7200 exceeds maximum allowed 3600 for tenant t1");
    assert_eq!(s.metrics.cache_stores, 0);
    assert_eq!(s.cache.backend().len(), 0);
    assert_error(handle_lookup(&mut s, &query("t1:x", None), None, NOW), 404, "cache miss");
}

#[test]
fn ttl_at_ceiling_is_accepted() {
    let mut s = state();
    s.policy.add_tenant(tenant("t1", "k1", Some(3600), vec![]));
    store(&mut s, "t1:x", artifact("t1", "h", Some(3600)), NOW);
    assert_eq!(s.cache.backend().len(), 1);
}

#[test]
fn purge_by_tenant() {
    let mut s = state();
    store(&mut s, "t1:a", artifact("t1", "ha", None), NOW);
    store(&mut s, "t1:b", artifact("t1", "hb", None), NOW);
    store(&mut s, "t2:c", artifact("t2", "hc", None), NOW);
    let req = PurgeRequest { keys: vec![], tenant: Some("t1".to_string()), provenance_hash: None };
    let resp = handle_purge(&mut s, &req, None, NOW).unwrap();
    assert_eq!(resp.purged, 2);
    assert_eq!(s.metrics.cache_purges, 2);
    assert_error(handle_lookup(&mut s, &query("t1:a", None), None, NOW), 404, "cache miss");
    served(handle_lookup(&mut s, &query("t2:c", None), None, NOW));
}

#[test]
fn superseded_by_event_purges_old_hash() {
    let mut s = state();
    store(&mut s, "t1:doc", artifact("t1", "v1", None), NOW);
    store(&mut s, "t1:other", artifact("t1", "v9", None), NOW);
    let event = GraphEvent::SupersededBy {
        old_hash: "v1".to_string(),
        new_hash: "v2".to_string(),
        tenant: "t1".to_string(),
    };
    assert_eq!(handle_event(&event, &mut s.cache, NOW).unwrap(), 1);
    assert_error(handle_lookup(&mut s, &query("t1:doc", None), None, NOW), 404, "cache miss");
    served(handle_lookup(&mut s, &query("t1:other", None), None, NOW));
}

#[test]
fn superseded_by_event_matches_provenance_hash() {
    let mut s = state();
    let a = with_provenance(artifact("t1", "v7", None), "capsule-9/doc", Some("v1"));
    store(&mut s, "t1:derived", a, NOW);
    let event = GraphEvent::SupersededBy {
        old_hash: "v1".to_string(),
        new_hash: "v2".to_string(),
        tenant: "t1".to_string(),
    };
    assert_eq!(handle_event(&event, &mut s.cache, NOW).unwrap(), 1);
    assert_eq!(s.cache.backend().len(), 0);
}

fn upstream_record(key: &str, tenant: &str, ttl: Option<u64>) -> LookupResponse {
    LookupResponse {
        key: key.to_string(),
        artifact: artifact(tenant, "h", ttl),
        expires_at: None,
        ttl_remaining_seconds: None,
    }
}

#[test]
fn upstream_hydration_on_miss() {
    let mut s = state_with_upstream();
    let q = query("t1:q", None);
    match handle_lookup(&mut s, &q, None, NOW).unwrap() {
        LookupStep::FetchUpstream => {}
        other => panic!("expected an upstream fetch, got {:?}", other),
    }
    assert_eq!(s.metrics.upstream_requests, 1);
    assert_eq!(s.metrics.cache_misses, 1);
    let fetched = Ok(Some(upstream_record("t1:q", "t1", Some(120))));
    let resp = complete_hydration(&mut s, &q, None, fetched, NOW).unwrap();
    assert_eq!(resp.key, "t1:q");
    assert_eq!(resp.expires_at, Some(NOW + 120_000));
    assert_eq!(resp.ttl_remaining_seconds, Some(120));
    assert_eq!(s.metrics.cache_stores, 1);

    let again = served(handle_lookup(&mut s, &q, None, NOW + 1_000));
    assert_eq!(again.artifact.hash, "h");
    assert_eq!(s.metrics.upstream_requests, 1);
    assert_eq!(s.metrics.cache_hits, 1);
}

#[test]
fn hydration_prefers_upstream_deadline() {
    let mut s = state_with_upstream();
    let q = query("t1:q", None);
    let mut rec = upstream_record("t1:q", "t1", Some(120));
    rec.expires_at = Some(NOW + 5_000);
    rec.ttl_remaining_seconds = Some(30);
    let resp = complete_hydration(&mut s, &q, None, Ok(Some(rec)), NOW).unwrap();
    assert_eq!(resp.expires_at, Some(NOW + 5_000));
}

#[test]
fn hydration_tenant_mismatch_counts_failure() {
    let mut s = state_with_upstream();
    let q = query("t1:q", Some("t1"));
    let fetched = Ok(Some(upstream_record("t1:q", "t2", Some(120))));
    assert_error(complete_hydration(&mut s, &q, None, fetched, NOW), 404, "cache miss");
    assert_eq!(s.metrics.upstream_failures, 1);
    assert_eq!(s.cache.backend().len(), 0);
}

#[test]
fn hydration_upstream_miss_is_not_found() {
    let mut s = state_with_upstream();
    let q = query("t1:q", None);
    assert_error(complete_hydration(&mut s, &q, None, Ok(None), NOW), 404, "cache miss");
    assert_eq!(s.metrics.upstream_failures, 0);
}

#[test]
fn expired_record_is_a_miss_and_removed() {
    let mut s = state();
    store(&mut s, "t1:short", artifact("t1", "h", Some(1)), NOW);
    assert_eq!(s.cache.backend().len(), 1);
    assert_error(handle_lookup(&mut s, &query("t1:short", None), None, NOW + 1_000), 404, "cache miss");
    assert_eq!(s.cache.backend().len(), 0);
    assert_eq!(s.metrics.cache_misses, 1);
}

#[test]
fn round_trip_keeps_artifact() {
    let mut s = state();
    let mut a = with_provenance(artifact("t1", "h1", Some(300)), "src", Some("p1"));
    a.answer = "{\"text\":\"hello\"}".to_string();
    a.metadata = Some("{\"m\":1}".to_string());
    a.policy.region = Some("eu".to_string());
    store(&mut s, "t1:rt", a, NOW);
    let hit = served(handle_lookup(&mut s, &query("t1:rt", None), None, NOW));
    assert_eq!(hit.artifact.answer, "{\"text\":\"hello\"}");
    assert_eq!(hit.artifact.metadata.as_deref(), Some("{\"m\":1}"));
    assert_eq!(hit.artifact.policy.region.as_deref(), Some("eu"));
    assert_eq!(hit.artifact.provenance.len(), 1);
    assert_eq!(hit.artifact.provenance[0].hash.as_deref(), Some("p1"));
    assert_eq!(hit.artifact.ttl_seconds, Some(300));
    assert!(hit.ttl_remaining_seconds.unwrap() <= 300);
}

#[test]
fn zero_ttl_falls_back_to_default() {
    let mut s = state();
    s.default_ttl_seconds = 10;
    let resp = handle_store(
        &mut s,
        StoreRequest { key: "k".to_string(), artifact: artifact("t1", "h", Some(0)) },
        None,
        NOW,
    )
    .unwrap();
    assert_eq!(resp.expires_at, Some(NOW + 10_000));
}

#[test]
fn zero_default_ttl_never_expires() {
    let mut s = state();
    s.default_ttl_seconds = 0;
    let resp = handle_store(
        &mut s,
        StoreRequest { key: "k".to_string(), artifact: artifact("t1", "h", None) },
        None,
        NOW,
    )
    .unwrap();
    assert_eq!(resp.expires_at, None);
    let hit = served(handle_lookup(&mut s, &query("k", None), None, i64::MAX));
    assert_eq!(hit.ttl_remaining_seconds, None);
}

#[test]
fn purge_by_provenance_removes_exactly_matching() {
    let mut s = state();
    store(&mut s, "t1:a", artifact("t1", "h1", None), NOW);
    store(&mut s, "t2:b", with_provenance(artifact("t2", "hb", None), "s", Some("h1")), NOW);
    store(&mut s, "t1:c", with_provenance(artifact("t1", "hc", None), "s", Some("h2")), NOW);
    let req = PurgeRequest { keys: vec![], tenant: None, provenance_hash: Some("h1".to_string()) };
    assert_eq!(handle_purge(&mut s, &req, None, NOW).unwrap().purged, 2);
    assert_error(handle_lookup(&mut s, &query("t1:a", None), None, NOW), 404, "cache miss");
    assert_error(handle_lookup(&mut s, &query("t2:b", None), None, NOW), 404, "cache miss");
    served(handle_lookup(&mut s, &query("t1:c", None), None, NOW));
}

#[test]
fn invalidate_tenant_twice_is_idempotent() {
    let mut s = state();
    store(&mut s, "t1:a", artifact("t1", "h", None), NOW);
    store(&mut s, "t2:b", artifact("t2", "h", None), NOW);
    let event = GraphEvent::InvalidateTenant { tenant: "t1".to_string() };
    assert_eq!(handle_event(&event, &mut s.cache, NOW).unwrap(), 1);
    assert_eq!(s.cache.backend().len(), 1);
    assert_eq!(handle_event(&event, &mut s.cache, NOW).unwrap(), 0);
    assert_eq!(s.cache.backend().len(), 1);
    served(handle_lookup(&mut s, &query("t2:b", None), None, NOW));
}

#[test]
fn upstream_error_does_not_poison_cache() {
    let mut s = state_with_upstream();
    let q = query("t1:q", None);
    handle_lookup(&mut s, &q, None, NOW).unwrap();
    let r = complete_hydration(&mut s, &q, None, Err(AppError::internal("upstream down")), NOW);
    assert_error(r, 500, "internal error");
    assert_eq!(s.metrics.upstream_failures, 1);
    assert_eq!(s.cache.backend().len(), 0);
    match handle_lookup(&mut s, &q, None, NOW).unwrap() {
        LookupStep::FetchUpstream => {}
        other => panic!("expected a miss, got {:?}", other),
    }
}

#[test]
fn store_rejects_blank_key_and_hash() {
    let mut s = state();
    let r = handle_store(
        &mut s,
        StoreRequest { key: " \t".to_string(), artifact: artifact("t1", "h", None) },
        None,
        NOW,
    );
    assert_error(r, 400, "key is required");
    let r = handle_store(
        &mut s,
        StoreRequest { key: "k".to_string(), artifact: artifact("t1", "\u{3000}", None) },
        None,
        NOW,
    );
    assert_error(r, 400, "artifact hash is required");
    assert_eq!(s.cache.backend().len(), 0);
}

#[test]
fn store_checks_presented_api_key() {
    let mut s = state();
    s.policy.add_tenant(tenant("t1", "secret-1", None, vec![]));
    let req = |t: &str| StoreRequest { key: "k".to_string(), artifact: artifact(t, "h", None) };
    assert_error(handle_store(&mut s, req("t9"), Some("x"), NOW), 400, "Unknown tenant");
    assert_error(handle_store(&mut s, req("t1"), Some("wrong"), NOW), 400, "Invalid API key");
    assert!(handle_store(&mut s, req("t1"), Some("secret-1"), NOW).is_ok());
    // Without a key no credential check is made.
    assert!(handle_store(&mut s, req("t9"), None, NOW).is_ok());
}

#[test]
fn store_checks_region() {
    let mut s = state();
    s.policy.add_tenant(tenant("t1", "k", None, vec!["eu", "us"]));
    let mut a = artifact("t1", "h", None);
    a.policy.region = Some("apac".to_string());
    let r = handle_store(&mut s, StoreRequest { key: "k".to_string(), artifact: a.clone() }, None, NOW);
    assert_error(r, 400, "Region apac not allowed for tenant t1");
    a.policy.region = Some("us".to_string());
    assert!(handle_store(&mut s, StoreRequest { key: "k".to_string(), artifact: a }, None, NOW).is_ok());
}

#[test]
fn lookup_rejects_blank_key() {
    let mut s = state();
    assert_error(handle_lookup(&mut s, &query("", None), None, NOW), 400, "key query parameter is required");
}

#[test]
fn lookup_checks_api_key_against_stored_tenant() {
    let mut s = state();
    s.policy.add_tenant(tenant("t1", "k1", None, vec![]));
    store(&mut s, "t1:a", artifact("t1", "h", None), NOW);
    assert_error(handle_lookup(&mut s, &query("t1:a", None), Some("bad"), NOW), 400, "Invalid API key");
    served(handle_lookup(&mut s, &query("t1:a", None), Some("k1"), NOW));
}

#[test]
fn purge_requires_a_discriminator() {
    let mut s = state();
    let req = PurgeRequest { keys: vec![], tenant: None, provenance_hash: None };
    assert_error(handle_purge(&mut s, &req, None, NOW), 400, "must specify keys, tenant, or provenance_hash");
}

#[test]
fn purge_keys_win_over_tenant_and_provenance() {
    let mut s = state();
    store(&mut s, "t1:a", artifact("t1", "h", None), NOW);
    store(&mut s, "t1:b", artifact("t1", "h", None), NOW);
    let req = PurgeRequest {
        keys: vec!["t1:a".to_string(), "t1:a".to_string(), "missing".to_string()],
        tenant: Some("t1".to_string()),
        provenance_hash: Some("h".to_string()),
    };
    assert_eq!(handle_purge(&mut s, &req, None, NOW).unwrap().purged, 1);
    served(handle_lookup(&mut s, &query("t1:b", None), None, NOW));
}

#[test]
fn purge_tenant_wins_over_provenance() {
    let mut s = state();
    store(&mut s, "t1:a", artifact("t1", "x", None), NOW);
    store(&mut s, "t2:b", artifact("t2", "h", None), NOW);
    let req = PurgeRequest {
        keys: vec![],
        tenant: Some("t1".to_string()),
        provenance_hash: Some("h".to_string()),
    };
    assert_eq!(handle_purge(&mut s, &req, None, NOW).unwrap().purged, 1);
    served(handle_lookup(&mut s, &query("t2:b", None), None, NOW));
}

#[test]
fn purge_checks_api_key_for_named_tenant() {
    let mut s = state();
    s.policy.add_tenant(tenant("t1", "k1", None, vec![]));
    store(&mut s, "t1:a", artifact("t1", "h", None), NOW);
    let req = PurgeRequest { keys: vec![], tenant: Some("t1".to_string()), provenance_hash: None };
    assert_error(handle_purge(&mut s, &req, Some("nope"), NOW), 400, "Invalid API key");
    assert_eq!(s.cache.backend().len(), 1);
    assert_eq!(handle_purge(&mut s, &req, Some("k1"), NOW).unwrap().purged, 1);
}

#[test]
fn revoke_capsule_event_matches_source_substring() {
    let mut s = state();
    store(&mut s, "t1:a", with_provenance(artifact("t1", "h", None), "kb/capsule-42/doc", None), NOW);
    store(&mut s, "t1:b", with_provenance(artifact("t1", "h", None), "kb/capsule-4/doc", None), NOW);
    store(&mut s, "t2:c", with_provenance(artifact("t2", "h", None), "kb/capsule-42/doc", None), NOW);
    let event = GraphEvent::RevokeCapsule { capsule_id: "capsule-42".to_string(), tenant: "t1".to_string() };
    assert_eq!(handle_event(&event, &mut s.cache, NOW).unwrap(), 1);
    assert_eq!(s.cache.backend().len(), 2);
}

#[test]
fn update_ttl_event_is_accepted_and_ignored() {
    let mut s = state();
    store(&mut s, "t1:a", artifact("t1", "h", None), NOW);
    let event = GraphEvent::UpdateTtl {
        pattern: "t1:*".to_string(),
        tenant: "t1".to_string(),
        new_ttl_seconds: 5,
    };
    assert_eq!(handle_event(&event, &mut s.cache, NOW).unwrap(), 0);
    assert_eq!(s.cache.backend().len(), 1);
}
