//! Tenant registry and the policy checks applied to every store and lookup.
use vstd::prelude::*;
use crate::error::{bad_request_with, AppError};
use crate::model::{copy_text_list, opt_text, text_list};
use crate::text::{decimal, decimal_text, has_prefix, same_text, strip_prefix_text};

verus! {

/// Claims carried by a bearer token.
#[derive(Debug, Clone)]
pub struct Claims {
    /// The tenant the token was issued to.
    pub sub: String,
    /// Expiry, in seconds since the Unix epoch.
    pub exp: usize,
    /// Issue time, in seconds since the Unix epoch.
    pub iat: usize,
    pub scopes: Vec<String>,
}

/// Per-tenant policy.
#[derive(Debug, Clone)]
pub struct TenantConfig {
    pub tenant_id: String,
    pub api_key: String,
    pub allowed_regions: Vec<String>,
    pub max_ttl_seconds: Option<u64>,
    pub require_phi_compliance: bool,
    pub require_pii_compliance: bool,
}

pub struct TenantView {
    pub tenant_id: Seq<char>,
    pub api_key: Seq<char>,
    pub allowed_regions: Seq<Seq<char>>,
    pub max_ttl_seconds: Option<u64>,
    pub require_phi_compliance: bool,
    pub require_pii_compliance: bool,
}

impl View for TenantConfig {
    type V = TenantView;

    open spec fn view(&self) -> TenantView {
        TenantView {
            tenant_id: self.tenant_id@,
            api_key: self.api_key@,
            allowed_regions: text_list(self.allowed_regions@),
            max_ttl_seconds: self.max_ttl_seconds,
            require_phi_compliance: self.require_phi_compliance,
            require_pii_compliance: self.require_pii_compliance,
        }
    }
}

impl TenantConfig {
    pub fn duplicate(&self) -> (r: Self)
        ensures
            r@ == self@,
    {
        TenantConfig {
            tenant_id: self.tenant_id.clone(),
            api_key: self.api_key.clone(),
            allowed_regions: copy_text_list(&self.allowed_regions),
            max_ttl_seconds: self.max_ttl_seconds,
            require_phi_compliance: self.require_phi_compliance,
            require_pii_compliance: self.require_pii_compliance,
        }
    }
}

/// The registry after registering each of `ts` in order; a later entry for a
/// tenant replaces an earlier one.
pub open spec fn register_all(m: Map<Seq<char>, TenantView>, ts: Seq<TenantView>) -> Map<
    Seq<char>,
    TenantView,
>
    decreases ts.len(),
{
    if ts.len() == 0 {
        m
    } else {
        register_all(m.insert(ts[0].tenant_id, ts[0]), ts.drop_first())
    }
}

pub open spec fn ttl_error_text(ttl: u64, max_ttl: u64, tenant: Seq<char>) -> Seq<char> {
    "TTL "@ + decimal(ttl as nat) + " exceeds maximum allowed "@ + decimal(max_ttl as nat)
        + " for tenant "@ + tenant
}

pub open spec fn region_error_text(region: Seq<char>, tenant: Seq<char>) -> Seq<char> {
    "Region "@ + region + " not allowed for tenant "@ + tenant
}

/// A TTL is refused when the tenant is registered with a ceiling and the TTL exceeds it.
pub open spec fn ttl_refused(t: Map<Seq<char>, TenantView>, tenant: Seq<char>, ttl: Option<u64>) -> bool {
    &&& ttl is Some
    &&& t.contains_key(tenant)
    &&& t[tenant].max_ttl_seconds is Some
    &&& ttl->0 > t[tenant].max_ttl_seconds->0
}

/// A region is refused when the tenant is registered with a non-empty list of
/// allowed regions that does not hold it.
pub open spec fn region_refused(
    t: Map<Seq<char>, TenantView>,
    tenant: Seq<char>,
    region: Option<Seq<char>>,
) -> bool {
    &&& region is Some
    &&& t.contains_key(tenant)
    &&& t[tenant].allowed_regions.len() > 0
    &&& !t[tenant].allowed_regions.contains(region->0)
}

/// Why presenting `key` for `tenant` is refused, if it is.
pub open spec fn key_refusal(t: Map<Seq<char>, TenantView>, tenant: Seq<char>, key: Seq<char>) -> Option<Seq<char>> {
    if !t.contains_key(tenant) {
        Some("Unknown tenant"@)
    } else if t[tenant].api_key != key {
        Some("Invalid API key"@)
    } else {
        None
    }
}

/// Why an optionally presented key is refused for `tenant`; no key, no refusal.
pub open spec fn presented_key_refusal(t: Map<Seq<char>, TenantView>, tenant: Seq<char>, key: Option<&str>) -> Option<Seq<char>> {
    match key {
        Some(k) => key_refusal(t, tenant, k@),
        None => None,
    }
}

/// The outcome of presenting `key` for `tenant`.
pub open spec fn api_key_outcome(t: Map<Seq<char>, TenantView>, tenant: Seq<char>, key: Seq<char>, r: Result<(), AppError>) -> bool {
    if !t.contains_key(tenant) {
        r matches Err(e) && bad_request_with(e, "Unknown tenant"@)
    } else if t[tenant].api_key != key {
        r matches Err(e) && bad_request_with(e, "Invalid API key"@)
    } else {
        r is Ok
    }
}

/// Tenant registry with credential, TTL, region and compliance checks.
pub struct PolicyEngine {
    tenants: Vec<TenantConfig>,
    registry: Ghost<Map<Seq<char>, TenantView>>,
    jwt_secret: Option<String>,
}

impl PolicyEngine {
    /// The registered tenants, by id.
    pub closed spec fn tenants(&self) -> Map<Seq<char>, TenantView> {
        self.registry@
    }

    pub closed spec fn secret(&self) -> Option<Seq<char>> {
        opt_text(self.jwt_secret)
    }

    pub closed spec fn wf(&self) -> bool {
        &&& forall|i: int, j: int|
            0 <= i < j < self.tenants@.len() ==> self.tenants@[i].tenant_id@
                != self.tenants@[j].tenant_id@
        &&& forall|i: int|
            0 <= i < self.tenants@.len() ==> self.registry@.contains_key(
                #[trigger] self.tenants@[i].tenant_id@,
            ) && self.registry@[self.tenants@[i].tenant_id@] == self.tenants@[i]@
        &&& forall|id: Seq<char>|
            #[trigger] self.registry@.contains_key(id) ==> exists|i: int|
                0 <= i < self.tenants@.len() && #[trigger] self.tenants@[i].tenant_id@ == id
    }

    pub fn new(jwt_secret: Option<String>) -> (r: Self)
        ensures
            r.wf(),
            r.tenants() == Map::<Seq<char>, TenantView>::empty(),
            r.secret() == opt_text(jwt_secret),
    {
        PolicyEngine { tenants: Vec::new(), registry: Ghost(Map::empty()), jwt_secret }
    }

    fn position(&self, tenant_id: &str) -> (r: Option<usize>)
        requires
            self.wf(),
        ensures
            r matches Some(i) ==> i < self.tenants@.len() && self.tenants@[i as int].tenant_id@
                == tenant_id@,
            r is None ==> !self.tenants().contains_key(tenant_id@),
    {
        let mut i: usize = 0;
        while i < self.tenants.len()
            invariant
                i <= self.tenants@.len(),
                forall|j: int| 0 <= j < i ==> self.tenants@[j].tenant_id@ != tenant_id@,
            decreases self.tenants@.len() - i,
        {
            if same_text(self.tenants[i].tenant_id.as_str(), tenant_id) {
                return Some(i);
            }
            i = i + 1;
        }
        None
    }

    /// Registers a tenant, replacing any earlier configuration with the same id.
    pub fn add_tenant(&mut self, tenant: TenantConfig)
        requires
            old(self).wf(),
        ensures
            final(self).wf(),
            final(self).tenants() == old(self).tenants().insert(tenant.tenant_id@, tenant@),
            final(self).secret() == old(self).secret(),
    {
        let ghost id = tenant.tenant_id@;
        let ghost tv = tenant@;
        let ghost pos: int;
        match self.position(tenant.tenant_id.as_str()) {
            Some(i) => {
                proof {
                    pos = i as int;
                }
                self.tenants.set(i, tenant);
            },
            None => {
                proof {
                    pos = self.tenants@.len() as int;
                }
                self.tenants.push(tenant);
            },
        }
        self.registry = Ghost(self.registry@.insert(id, tv));
        assert(self.tenants@[pos].tenant_id@ == id);
        assert forall|k: Seq<char>| #[trigger] self.registry@.contains_key(k) implies exists|i: int|
            0 <= i < self.tenants@.len() && #[trigger] self.tenants@[i].tenant_id@ == k by {
            if k != id {
                let i = choose|i: int|
                    0 <= i < old(self).tenants@.len() && #[trigger] old(self).tenants@[i].tenant_id@
                        == k;
                assert(i != pos);
                assert(self.tenants@[i].tenant_id@ == k);
            } else {
                assert(self.tenants@[pos].tenant_id@ == k);
            }
        }
    }

    /// Registers each tenant in order.
    pub fn load_tenants(&mut self, tenants: Vec<TenantConfig>) -> (r: Result<(), AppError>)
        requires
            old(self).wf(),
        ensures
            r is Ok,
            final(self).wf(),
            final(self).tenants() == register_all(
                old(self).tenants(),
                tenants@.map_values(|t: TenantConfig| t@),
            ),
            final(self).secret() == old(self).secret(),
    {
        let ghost all = tenants@.map_values(|t: TenantConfig| t@);
        assert(all =~= all.subrange(0, all.len() as int));
        let mut i: usize = 0;
        while i < tenants.len()
            invariant
                i <= tenants@.len(),
                all == tenants@.map_values(|t: TenantConfig| t@),
                self.wf(),
                self.secret() == old(self).secret(),
                register_all(self.tenants(), all.subrange(i as int, all.len() as int))
                    == register_all(old(self).tenants(), all),
            decreases tenants@.len() - i,
        {
            proof {
                assert(all.subrange(i as int, all.len() as int).drop_first() =~= all.subrange(
                    i + 1,
                    all.len() as int,
                ));
            }
            self.add_tenant(tenants[i].duplicate());
            i = i + 1;
        }
        proof {
            assert(all.subrange(i as int, all.len() as int) =~= Seq::<TenantView>::empty());
        }
        Ok(())
    }

    /// The configuration of a registered tenant.
    pub fn get_tenant(&self, tenant_id: &str) -> (r: Option<TenantConfig>)
        requires
            self.wf(),
        ensures
            r is Some <==> self.tenants().contains_key(tenant_id@),
            r matches Some(t) ==> t@ == self.tenants()[tenant_id@],
    {
        match self.position(tenant_id) {
            Some(i) => Some(self.tenants[i].duplicate()),
            None => None,
        }
    }

    /// Checks a presented API key against the tenant's: an unknown tenant and a
    /// wrong key are both refused.
    pub fn validate_api_key(&self, tenant_id: &str, api_key: &str) -> (r: Result<(), AppError>)
        requires
            self.wf(),
        ensures
            api_key_outcome(self.tenants(), tenant_id@, api_key@, r),
    {
        match self.position(tenant_id) {
            Some(i) => {
                if same_text(self.tenants[i].api_key.as_str(), api_key) {
                    Ok(())
                } else {
                    Err(AppError::bad_request("Invalid API key"))
                }
            },
            None => Err(AppError::bad_request("Unknown tenant")),
        }
    }

    /// Checks a requested TTL against the tenant's ceiling, if it has one.
    pub fn validate_ttl(&self, tenant_id: &str, ttl_seconds: Option<u64>) -> (r: Result<(), AppError>)
        requires
            self.wf(),
        ensures
            r is Ok <==> !ttl_refused(self.tenants(), tenant_id@, ttl_seconds),
            r matches Err(e) ==> bad_request_with(
                e,
                ttl_error_text(
                    ttl_seconds->0,
                    self.tenants()[tenant_id@].max_ttl_seconds->0,
                    tenant_id@,
                ),
            ),
    {
        if let Some(ttl) = ttl_seconds {
            if let Some(i) = self.position(tenant_id) {
                if let Some(max_ttl) = self.tenants[i].max_ttl_seconds {
                    if ttl > max_ttl {
                        let mut m = "TTL ".to_string();
                        m.append(decimal_text(ttl).as_str());
                        m.append(" exceeds maximum allowed ");
                        m.append(decimal_text(max_ttl).as_str());
                        m.append(" for tenant ");
                        m.append(tenant_id);
                        return Err(AppError::BadRequest(m));
                    }
                }
            }
        }
        Ok(())
    }

    /// Checks a region against the tenant's allowed regions, if it lists any.
    pub fn validate_region(&self, tenant_id: &str, region: Option<&str>) -> (r: Result<(), AppError>)
        requires
            self.wf(),
        ensures
            r is Ok <==> !region_refused(
                self.tenants(),
                tenant_id@,
                match region {
                    Some(x) => Some(x@),
                    None => None,
                },
            ),
            r matches Err(e) ==> bad_request_with(e, region_error_text(region->0@, tenant_id@)),
    {
        if let Some(i) = self.position(tenant_id) {
            assert(self.tenants()[tenant_id@] == self.tenants@[i as int]@);
            let allowed = &self.tenants[i].allowed_regions;
            if allowed.len() > 0 {
                if let Some(rg) = region {
                    let mut j: usize = 0;
                    while j < allowed.len()
                        invariant
                            j <= allowed@.len(),
                            self.tenants().contains_key(tenant_id@),
                            region == Some(rg),
                            text_list(allowed@) == self.tenants()[tenant_id@].allowed_regions,
                            forall|k: int| 0 <= k < j ==> allowed@[k]@ != rg@,
                        decreases allowed@.len() - j,
                    {
                        if same_text(allowed[j].as_str(), rg) {
                            assert(text_list(allowed@)[j as int] == rg@);
                            assert(self.tenants()[tenant_id@].allowed_regions.contains(rg@));
                            return Ok(());
                        }
                        j = j + 1;
                    }
                    proof {
                        assert(!text_list(allowed@).contains(rg@)) by {
                            if text_list(allowed@).contains(rg@) {
                                let k = choose|k: int|
                                    0 <= k < text_list(allowed@).len() && text_list(allowed@)[k]
                                        == rg@;
                                assert(allowed@[k]@ == rg@);
                            }
                        }
                    }
                    let mut m = "Region ".to_string();
                    m.append(rg);
                    m.append(" not allowed for tenant ");
                    m.append(tenant_id);
                    return Err(AppError::BadRequest(m));
                }
            }
        }
        Ok(())
    }

    /// Compliance gate for PHI and PII content. It is invoked on every store and
    /// refuses nothing at present.
    pub fn validate_compliance(&self, tenant_id: &str, has_phi: bool, has_pii: bool) -> (r: Result<
        (),
        AppError,
    >)
        requires
            self.wf(),
        ensures
            r is Ok,
    {
        Ok(())
    }

    /// The configured token secret, if any.
    pub fn jwt_secret(&self) -> (r: Option<String>)
        ensures
            opt_text(r) == self.secret(),
    {
        crate::model::copy_opt_text(&self.jwt_secret)
    }

    /// Decides on a bearer token from the outcome of decoding it with the
    /// configured secret (signature and expiry checked by the decoder).
    pub fn validate_jwt(&self, decoded: Result<Claims, String>) -> (r: Result<Claims, AppError>)
        ensures
            self.secret() is None ==> (r matches Err(e) && bad_request_with(
                e,
                "JWT validation not configured"@,
            )),
            self.secret() is Some ==> match decoded {
                Ok(c) => r == Ok::<Claims, AppError>(c),
                Err(msg) => r matches Err(e) && bad_request_with(e, "Invalid JWT: "@ + msg@),
            },
    {
        if self.jwt_secret.is_none() {
            return Err(AppError::bad_request("JWT validation not configured"));
        }
        match decoded {
            Ok(c) => Ok(c),
            Err(msg) => {
                let mut m = "Invalid JWT: ".to_string();
                m.append(msg.as_str());
                Err(AppError::BadRequest(m))
            },
        }
    }
}

impl Default for PolicyEngine {
    fn default() -> (r: Self)
        ensures
            r.wf(),
            r.tenants() == Map::<Seq<char>, TenantView>::empty(),
            r.secret() is None,
    {
        PolicyEngine::new(None)
    }
}

/// The token of an `Authorization` header of the form `Bearer <token>`.
pub fn extract_bearer_token(auth_header: Option<&str>) -> (r: Option<String>)
    ensures
        match auth_header {
            None => r is None,
            Some(h) => if has_prefix(h@, "Bearer "@) {
                r matches Some(t) && t@ == h@.subrange(7, h@.len() as int)
            } else {
                r is None
            },
        },
{
    match auth_header {
        Some(h) => {
            proof {
                reveal_strlit("Bearer ");
            }
            strip_prefix_text(h, "Bearer ")
        },
        None => None,
    }
}

/// The API key of an `X-API-Key` header, when present.
pub fn extract_api_key(header: Option<&str>) -> (r: Option<String>)
    ensures
        match header {
            None => r is None,
            Some(h) => r matches Some(k) && k@ == h@,
        },
{
    match header {
        Some(h) => Some(h.to_string()),
        None => None,
    }
}

} // verus!
