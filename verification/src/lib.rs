//! Integration broker: a registry of external systems a business integrates
//! with, and a router that relays inbound webhook events to one fixed
//! downstream consumer.
//!
//! The registry keeps soft-deleted records around forever: creation activates
//! a record, deletion merely deactivates it, and listing shows only the
//! active ones. The webhook router is a stateless relay: it forwards the
//! payload it was given, unmodified, to a single statically configured
//! downstream address.

pub mod config;
pub mod error;
pub mod models;
pub mod registry;
pub mod webhook;
