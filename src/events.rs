//! Invalidation events and the listener that applies them to the cache.
use vstd::prelude::*;
use crate::api::{purge_pattern, purge_selected, selective_purge_done, tenant_pattern, tenant_scan_pattern};
use crate::backend::{matching_keys, CacheBackend, Records};
use crate::cache::Cache;
use crate::error::AppError;
use crate::purge::Criterion;

verus! {

/// An invalidation event published on the bus.
#[derive(Debug, Clone)]
pub enum GraphEvent {
    /// An artifact hash was superseded by a newer one.
    SupersededBy { old_hash: String, new_hash: String, tenant: String },
    /// A capsule was revoked, with everything derived from it.
    RevokeCapsule { capsule_id: String, tenant: String },
    /// Every record of a tenant is invalid.
    InvalidateTenant { tenant: String },
    /// A TTL change for matching records; recognised but not applied.
    UpdateTtl { pattern: String, tenant: String, new_ttl_seconds: u64 },
}

/// Where the bus is and which channel carries the events.
#[derive(Debug, Clone)]
pub struct EventBusConfig {
    pub url: String,
    pub channel: String,
}

impl Default for EventBusConfig {
    fn default() -> (r: Self)
        ensures
            r.url@ == "nats://127.0.0.1:4222"@,
            r.channel@ == "synagraph.cache"@,
    {
        EventBusConfig {
            url: "nats://127.0.0.1:4222".to_string(),
            channel: "synagraph.cache".to_string(),
        }
    }
}

/// The records left, and the count reported, after applying `event` to `before` at `now`.
pub open spec fn event_applied(event: GraphEvent, before: Records, after: Records, now: i64, purged: nat) -> bool {
    match event {
        GraphEvent::SupersededBy { old_hash, tenant, .. } => selective_purge_done(
            before,
            after,
            matching_keys(before, tenant_pattern(tenant@)),
            Criterion::Hash(old_hash),
            now,
            purged,
        ),
        GraphEvent::RevokeCapsule { capsule_id, tenant } => selective_purge_done(
            before,
            after,
            matching_keys(before, tenant_pattern(tenant@)),
            Criterion::Capsule(capsule_id),
            now,
            purged,
        ),
        GraphEvent::InvalidateTenant { tenant } => {
            let doomed = matching_keys(before, tenant_pattern(tenant@));
            after == before.remove_keys(doomed) && purged == doomed.len()
        },
        GraphEvent::UpdateTtl { .. } => after == before && purged == 0,
    }
}

/// Applies one event to the cache; returns how many records it purged.
pub fn handle_event<B: CacheBackend>(event: &GraphEvent, cache: &mut Cache<B>, now: i64) -> (r: Result<
    usize,
    AppError,
>)
    requires
        old(cache).wf(),
    ensures
        final(cache).wf(),
        r matches Ok(n) ==> event_applied(
            *event,
            old(cache).records(),
            final(cache).records(),
            now,
            n as nat,
        ),
        r matches Err(e) ==> e is Internal,
        final(cache).infallible() == old(cache).infallible(),
        old(cache).infallible() ==> r is Ok,
{
    match event {
        GraphEvent::SupersededBy { old_hash, tenant, .. } => {
            let pattern = tenant_scan_pattern(tenant.as_str());
            let criterion = Criterion::Hash(old_hash.clone());
            purge_selected(cache, pattern.as_str(), &criterion, now)
        },
        GraphEvent::RevokeCapsule { capsule_id, tenant } => {
            let pattern = tenant_scan_pattern(tenant.as_str());
            let criterion = Criterion::Capsule(capsule_id.clone());
            purge_selected(cache, pattern.as_str(), &criterion, now)
        },
        GraphEvent::InvalidateTenant { tenant } => {
            let pattern = tenant_scan_pattern(tenant.as_str());
            purge_pattern(cache, pattern.as_str())
        },
        GraphEvent::UpdateTtl { .. } => Ok(0),
    }
}

/// Lifecycle of the listener.
#[derive(Debug, Clone, Copy, PartialEq, Eq, Structural)]
pub enum ListenerPhase {
    Initializing,
    Subscribed,
    Draining,
    Stopped,
}

/// What the listener observes.
#[derive(Debug, Clone, Copy, PartialEq, Eq, Structural)]
pub enum ListenerInput {
    /// Connecting and subscribing succeeded.
    SubscribeSucceeded,
    /// A message arrived on the channel.
    Message,
    /// A shutdown signal arrived on the control channel.
    Shutdown,
    /// The subscription ended on the bus side.
    StreamClosed,
    /// The handler that was running has returned.
    HandlerReturned,
}

/// What the listener does next.
#[derive(Debug, Clone, Copy, PartialEq, Eq, Structural)]
pub enum ListenerAction {
    /// Decode the message and apply it.
    Dispatch,
    /// Nothing to do for this input.
    Ignore,
    /// Release the subscription and return.
    Finish,
}

pub open spec fn listener_step(phase: ListenerPhase, input: ListenerInput) -> (ListenerPhase, ListenerAction) {
    match (phase, input) {
        (ListenerPhase::Initializing, ListenerInput::SubscribeSucceeded) => (ListenerPhase::Subscribed, ListenerAction::Ignore),
        (ListenerPhase::Initializing, ListenerInput::Shutdown) => (ListenerPhase::Stopped, ListenerAction::Finish),
        (ListenerPhase::Subscribed, ListenerInput::Message) => (ListenerPhase::Subscribed, ListenerAction::Dispatch),
        (ListenerPhase::Subscribed, ListenerInput::Shutdown) => (ListenerPhase::Draining, ListenerAction::Ignore),
        (ListenerPhase::Subscribed, ListenerInput::StreamClosed) => (ListenerPhase::Draining, ListenerAction::Ignore),
        (ListenerPhase::Draining, ListenerInput::HandlerReturned) => (ListenerPhase::Stopped, ListenerAction::Finish),
        (p, _) => (p, ListenerAction::Ignore),
    }
}

/// The listener's transition: subscribing moves it to `Subscribed`, where each
/// message is dispatched; a shutdown (or the end of the stream) moves it to
/// `Draining`, where nothing more is dispatched; once the in-flight handler has
/// returned it is `Stopped`, for good.
pub fn next_phase(phase: ListenerPhase, input: ListenerInput) -> (r: (ListenerPhase, ListenerAction))
    ensures
        r == listener_step(phase, input),
        phase == ListenerPhase::Stopped ==> r.0 == ListenerPhase::Stopped,
        r.1 == ListenerAction::Dispatch ==> phase == ListenerPhase::Subscribed,
{
    match (phase, input) {
        (ListenerPhase::Initializing, ListenerInput::SubscribeSucceeded) => (ListenerPhase::Subscribed, ListenerAction::Ignore),
        (ListenerPhase::Initializing, ListenerInput::Shutdown) => (ListenerPhase::Stopped, ListenerAction::Finish),
        (ListenerPhase::Subscribed, ListenerInput::Message) => (ListenerPhase::Subscribed, ListenerAction::Dispatch),
        (ListenerPhase::Subscribed, ListenerInput::Shutdown) => (ListenerPhase::Draining, ListenerAction::Ignore),
        (ListenerPhase::Subscribed, ListenerInput::StreamClosed) => (ListenerPhase::Draining, ListenerAction::Ignore),
        (ListenerPhase::Draining, ListenerInput::HandlerReturned) => (ListenerPhase::Stopped, ListenerAction::Finish),
        (p, _) => (p, ListenerAction::Ignore),
    }
}

} // verus!
