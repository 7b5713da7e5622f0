//! Verified core of a layer-7 reverse proxy for blockchain RPC traffic.
//!
//! A process fronts one or more *chains* (upstream pools of blockchain RPC
//! nodes) and generic *common* pools.  Probes periodically extract a numeric
//! tip (block height) from each upstream's JSON health response; a selector
//! picks one healthy upstream per request, rewrites the request URI and Host
//! header, and chooses peer options; a unify listener demultiplexes one port
//! into the per-chain listeners by URL prefix.
//!
//! This crate holds the decision logic: validators, selection, rewriting,
//! configuration shaping and state.  Network and server glue lives outside.

pub mod capture;
pub mod config;
pub mod factory;
pub mod health;
pub mod json;
pub mod kv;
pub mod metrics;
pub mod numeric;
pub mod registry;
pub mod selector;
pub mod state;
pub mod strutil;
pub mod unify;
pub mod validators;
