//! A governed state registry for a competitive league.
//!
//! The registry tracks participant accounts, each account's eligibility
//! status and cumulative battle outcomes, together with minimal governance:
//! a rotatable administrator identity, a pause switch, a standards-discovery
//! table, and an upgrade operation with an explicit commit interlock.
//!
//! Every mutating operation is authorization-gated against the current admin
//! and, unless it is a governance recovery operation, blocked while the
//! registry is paused. Any error aborts the whole call: no partial effect
//! ever reaches durable storage.
pub mod types;
pub mod guard;
pub mod table;
pub mod registry;
pub mod standards;
pub mod coordinator;
pub mod laws;
