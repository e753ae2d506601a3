//! Verified core of a desktop notification broker.
//!
//! The broker accepts notification requests, normalizes their untyped hints
//! into typed fields, tracks live notifications in a registry keyed by id,
//! applies the do-not-disturb gating policy, and decides for each accepted
//! notification whether it goes to the local renderer or is forwarded to an
//! external notification-center process.
#![verifier::loop_isolation(false)]

pub mod config;
pub mod markup;
pub mod notification;
pub mod registry;
pub mod server;
