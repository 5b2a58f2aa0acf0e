//! A policy-aware, multi-tenant edge cache for knowledge artifacts: storage
//! backends, tenant policy, the request pipeline and the invalidation engine.
pub mod api;
pub mod backend;
pub mod cache;
pub mod error;
pub mod events;
pub mod laws;
pub mod metrics;
pub mod model;
pub mod policy;
pub mod purge;
pub mod state;
pub mod text;
pub mod ttl;
pub mod upstream;
