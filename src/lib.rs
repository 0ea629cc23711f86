//! Forward-authentication gatekeeper: a banned-IP cache refreshed from a
//! blocklist text, with single-flight refresh claims, and the per-request
//! allow/block decision.

pub mod access;
pub mod blocklist;
pub mod cache;
pub mod config;
pub mod health;
pub mod text;
