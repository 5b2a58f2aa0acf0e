use scedge::backend::{logical_key, physical_key, CacheBackend, MemoryBackend};
use scedge::error::AppError;
use scedge::events::{next_phase, EventBusConfig, ListenerAction, ListenerInput, ListenerPhase};
use scedge::model::{ArtifactPayload, PolicyContext};
use scedge::policy::{extract_api_key, extract_bearer_token, Claims, PolicyEngine, TenantConfig};
use scedge::state::{normalize_ttl, CacheState};
use scedge::text::{contains_text, glob_match, is_blank, same_text, strip_prefix_text};
use scedge::ttl::{
    effective_ttl, hydration_expiry, native_ttl_seconds, offset, remaining_seconds, store_expiry,
};
use scedge::upstream::{classify_status, lookup_url, UpstreamStatus};

const NOW: i64 = 1_700_000_000_000;

fn artifact(tenant: &str, hash: &str, ttl: Option<u64>) -> ArtifactPayload {
    ArtifactPayload {
        answer: "null".to_string(),
        policy: PolicyContext {
            tenant: tenant.to_string(),
            phi: true,
            pii: false,
            region: None,
            compliance_tags: vec!["hipaa".to_string()],
        },
        provenance: vec![],
        metrics: None,
        ttl_seconds: ttl,
        hash: hash.to_string(),
        metadata: None,
    }
}

#[test]
fn glob_matches_star_patterns() {
    assert!(glob_match("t1:*", "t1:a"));
    assert!(glob_match("t1:*", "t1:"));
    assert!(!glob_match("t1:*", "t10:a"));
    assert!(!glob_match("t1:*", "t2:a"));
    assert!(glob_match("*", ""));
    assert!(glob_match("*", "anything"));
    assert!(glob_match("a*c*e", "abcde"));
    assert!(!glob_match("a*c*e", "abcd"));
    assert!(glob_match("", ""));
    assert!(!glob_match("", "x"));
}

#[test]
fn text_helpers() {
    assert!(contains_text("kb/capsule-42/doc", "capsule-42"));
    assert!(!contains_text("kb/capsule-4/doc", "capsule-42"));
    assert!(contains_text("abc", ""));
    assert!(!contains_text("", "a"));
    assert!(is_blank(""));
    assert!(is_blank(" \t\n\u{a0}\u{2003}"));
    assert!(!is_blank(" x "));
    assert!(same_text("héllo", "héllo"));
    assert!(!same_text("hello", "hell"));
    assert_eq!(strip_prefix_text("Bearer abc", "Bearer "), Some("abc".to_string()));
    assert_eq!(strip_prefix_text("Bear", "Bearer "), None);
}

#[test]
fn bearer_and_api_key_extraction() {
    assert_eq!(extract_bearer_token(Some("Bearer tok.en")), Some("tok.en".to_string()));
    assert_eq!(extract_bearer_token(Some("Basic abc")), None);
    assert_eq!(extract_bearer_token(Some("bearer abc")), None);
    assert_eq!(extract_bearer_token(None), None);
    assert_eq!(extract_api_key(Some("k-1")), Some("k-1".to_string()));
    assert_eq!(extract_api_key(None), None);
}

#[test]
fn ttl_arithmetic() {
    assert_eq!(offset(NOW, 60), NOW + 60_000);
    assert_eq!(offset(i64::MAX - 10, 1), i64::MAX);
    assert_eq!(remaining_seconds(NOW + 60_000, NOW), 60);
    assert_eq!(remaining_seconds(NOW + 59_999, NOW), 59);
    assert_eq!(remaining_seconds(NOW, NOW), 0);
    assert_eq!(remaining_seconds(NOW - 5_000, NOW), 0);
    assert_eq!(native_ttl_seconds(NOW + 1_500, NOW), 2);
    assert_eq!(native_ttl_seconds(NOW + 1, NOW), 1);
    assert_eq!(native_ttl_seconds(NOW, NOW), 0);
    assert_eq!(effective_ttl(Some(30), 100), 30);
    assert_eq!(effective_ttl(Some(0), 100), 100);
    assert_eq!(effective_ttl(None, 100), 100);
    assert_eq!(store_expiry(None, 0, NOW), None);
    assert_eq!(store_expiry(Some(2), 0, NOW), Some(NOW + 2_000));
}

#[test]
fn hydration_expiry_order() {
    assert_eq!(hydration_expiry(Some(NOW + 9), Some(1), Some(2), 3, NOW), Some(NOW + 9));
    assert_eq!(hydration_expiry(Some(NOW), Some(1), Some(2), 3, NOW), Some(NOW + 1_000));
    assert_eq!(hydration_expiry(None, Some(0), Some(2), 3, NOW), Some(NOW + 2_000));
    assert_eq!(hydration_expiry(None, None, Some(0), 3, NOW), Some(NOW + 3_000));
    assert_eq!(hydration_expiry(None, None, None, 0, NOW), None);
}

#[test]
fn upstream_status_and_url() {
    assert_eq!(classify_status(404), UpstreamStatus::Miss);
    assert_eq!(classify_status(200), UpstreamStatus::Found);
    assert_eq!(classify_status(204), UpstreamStatus::Found);
    assert_eq!(classify_status(500), UpstreamStatus::Failed);
    assert_eq!(classify_status(301), UpstreamStatus::Failed);
    assert_eq!(lookup_url("http://graph:8080//"), "http://graph:8080/lookup");
    assert_eq!(lookup_url("http://graph"), "http://graph/lookup");
}

#[test]
fn error_status_and_messages() {
    let e = AppError::bad_request("bad");
    assert_eq!((e.status_code(), e.message()), (400, "bad".to_string()));
    let e = AppError::not_found("cache miss");
    assert_eq!((e.status_code(), e.message()), (404, "cache miss".to_string()));
    let e = AppError::internal("redis down at 10.0.0.1");
    assert_eq!((e.status_code(), e.message()), (500, "internal error".to_string()));
}

fn tenant(id: &str, key: &str, max_ttl: Option<u64>) -> TenantConfig {
    TenantConfig {
        tenant_id: id.to_string(),
        api_key: key.to_string(),
        allowed_regions: vec![],
        max_ttl_seconds: max_ttl,
        require_phi_compliance: true,
        require_pii_compliance: true,
    }
}

#[test]
fn policy_registry() {
    let mut p = PolicyEngine::new(None);
    assert!(p.get_tenant("t1").is_none());
    p.load_tenants(vec![tenant("t1", "a", None), tenant("t2", "b", Some(5)), tenant("t1", "c", None)])
        .unwrap();
    assert_eq!(p.get_tenant("t1").unwrap().api_key, "c");
    assert!(p.validate_api_key("t1", "c").is_ok());
    assert!(p.validate_api_key("t1", "a").is_err());
    assert!(p.validate_ttl("t2", Some(5)).is_ok());
    assert!(p.validate_ttl("t2", None).is_ok());
    assert!(p.validate_ttl("unknown", Some(1_000_000)).is_ok());
    match p.validate_ttl("t2", Some(18446744073709551615)) {
        Err(e) => assert_eq!(
            e.message(),
            "TTL 18446744073709551615 exceeds maximum allowed 5 for tenant t2"
        ),
        Ok(()) => panic!("expected a refusal"),
    }
    assert!(p.validate_region("t1", Some("anywhere")).is_ok());
    assert!(p.validate_compliance("t1", true, true).is_ok());
}

fn claims() -> Claims {
    Claims { sub: "t1".to_string(), exp: 10, iat: 1, scopes: vec!["read".to_string()] }
}

#[test]
fn jwt_decisions() {
    let unconfigured = PolicyEngine::default();
    match unconfigured.validate_jwt(Ok(claims())) {
        Err(e) => assert_eq!(e.message(), "JWT validation not configured"),
        Ok(_) => panic!("expected a refusal"),
    }
    let p = PolicyEngine::new(Some("s3cr3t".to_string()));
    assert_eq!(p.jwt_secret(), Some("s3cr3t".to_string()));
    assert_eq!(p.validate_jwt(Ok(claims())).unwrap().sub, "t1");
    match p.validate_jwt(Err("ExpiredSignature".to_string())) {
        Err(e) => {
            assert_eq!(e.status_code(), 400);
            assert_eq!(e.message(), "Invalid JWT: ExpiredSignature");
        }
        Ok(_) => panic!("expected a refusal"),
    }
}

#[test]
fn memory_backend_contract() {
    let mut b = MemoryBackend::new();
    match b.set("k".to_string(), artifact("t1", "h", None), Some(NOW), NOW) {
        Err(e) => assert_eq!(e.message(), "Artifact already expired"),
        Ok(_) => panic!("expected a refusal"),
    }
    let rec = b.set("k".to_string(), artifact("t1", "h", None), Some(NOW + 1), NOW).unwrap();
    assert_eq!(rec.stored_at, NOW);
    assert_eq!(rec.expires_at, Some(NOW + 1));
    assert!(b.get("k", NOW).unwrap().is_some());
    assert!(b.get("k", NOW + 1).unwrap().is_none());
    assert_eq!(b.len(), 0);
    b.set("a:1".to_string(), artifact("t1", "h", None), None, NOW).unwrap();
    b.set("a:2".to_string(), artifact("t1", "h", None), None, NOW).unwrap();
    b.set("b:1".to_string(), artifact("t1", "h", None), None, NOW).unwrap();
    let mut keys = b.scan_by_pattern("a:*").unwrap();
    keys.sort();
    assert_eq!(keys, vec!["a:1".to_string(), "a:2".to_string()]);
    assert!(b.delete("a:1").unwrap());
    assert!(!b.delete("a:1").unwrap());
    assert_eq!(b.delete_many(&["a:2".to_string(), "zz".to_string()]).unwrap(), 1);
    assert_eq!(b.len(), 1);
}

#[test]
fn key_namespace() {
    assert_eq!(physical_key("t1:a"), "scedge:artifact:t1:a");
    assert_eq!(logical_key("scedge:artifact:t1:a"), Some("t1:a".to_string()));
    assert_eq!(logical_key("other:t1:a"), None);
}

#[test]
fn cache_state_normalizes_ttl() {
    let mut a = artifact("t1", "h", Some(0));
    assert_eq!(normalize_ttl(&mut a, 30, NOW), (Some(NOW + 30_000), Some(30)));
    assert_eq!(a.ttl_seconds, Some(30));
    let mut b = artifact("t1", "h", None);
    assert_eq!(normalize_ttl(&mut b, 0, NOW), (None, None));
    assert_eq!(b.ttl_seconds, None);

    let mut c = CacheState::new(60);
    assert_eq!(c.default_ttl(), 60);
    let first = c.set("k".to_string(), artifact("t1", "h", None), NOW);
    assert!(first.created);
    assert_eq!(first.record.artifact.ttl_seconds, Some(60));
    assert_eq!(first.record.expires_at, Some(NOW + 60_000));
    let second = c.set("k".to_string(), artifact("t1", "h2", Some(5)), NOW);
    assert!(!second.created);
    assert_eq!(c.get("k", NOW).unwrap().artifact.hash, "h2");
    c.set("j".to_string(), artifact("t1", "h", Some(100)), NOW);
    assert_eq!(c.purge_expired(NOW + 5_000), 1);
    assert!(c.get("k", NOW).is_none());
    assert_eq!(c.purge(&["j".to_string(), "j".to_string(), "x".to_string()]), 1);
    assert!(c.get("j", NOW).is_none());
}

#[test]
fn listener_lifecycle() {
    let (p, a) = next_phase(ListenerPhase::Initializing, ListenerInput::SubscribeSucceeded);
    assert_eq!((p, a), (ListenerPhase::Subscribed, ListenerAction::Ignore));
    let (p, a) = next_phase(p, ListenerInput::Message);
    assert_eq!((p, a), (ListenerPhase::Subscribed, ListenerAction::Dispatch));
    let (p, a) = next_phase(p, ListenerInput::Shutdown);
    assert_eq!((p, a), (ListenerPhase::Draining, ListenerAction::Ignore));
    let (p2, a2) = next_phase(p, ListenerInput::Message);
    assert_eq!((p2, a2), (ListenerPhase::Draining, ListenerAction::Ignore));
    let (p, a) = next_phase(p, ListenerInput::HandlerReturned);
    assert_eq!((p, a), (ListenerPhase::Stopped, ListenerAction::Finish));
    let (p, a) = next_phase(p, ListenerInput::SubscribeSucceeded);
    assert_eq!((p, a), (ListenerPhase::Stopped, ListenerAction::Ignore));
}

#[test]
fn event_bus_defaults() {
    let c = EventBusConfig::default();
    assert_eq!(c.url, "nats://127.0.0.1:4222");
    assert_eq!(c.channel, "synagraph.cache");
}

#[test]
fn memory_backend_direct_operations() {
    let mut b = MemoryBackend::new();
    assert!(b.write("t1:a".to_string(), artifact("t1", "h", None), Some(NOW - 1), NOW).is_err());
    assert_eq!(b.len(), 0);
    let rec = b.write("t1:a".to_string(), artifact("t1", "h", Some(9)), None, NOW).unwrap();
    assert_eq!(rec.key, "t1:a");
    assert_eq!(rec.artifact.ttl_seconds, Some(9));
    b.write("t2:b".to_string(), artifact("t2", "h", None), Some(NOW + 10), NOW).unwrap();
    assert_eq!(b.keys_matching("t1:*"), vec!["t1:a".to_string()]);
    assert_eq!(b.expired_keys(NOW + 10), vec!["t2:b".to_string()]);
    assert!(b.read("t2:b", NOW + 10).is_none());
    assert_eq!(b.len(), 1);
    assert!(b.remove("t1:a"));
    assert!(!b.remove("t1:a"));
    assert_eq!(b.remove_all(&["x".to_string()]), 0);
}
