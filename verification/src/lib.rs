//! Per-connection state of a reverse proxy that fronts a chat service
//! authenticated by rotating session credentials ("cookies").
//!
//! A [`state::AppState`] leases at most one credential at a time from an
//! external credential broker, binds it to an HTTP session, tracks the remote
//! organization/conversation identifiers, plans the deletion of the tracked
//! conversation, and finally returns the credential to the broker together
//! with an outcome [`config::Reason`].
//!
//! The asynchronous plumbing (the broker channels and the shared HTTP client)
//! lives outside this crate; it feeds the events it observes into the
//! decision functions here and carries out the actions they return.

pub mod config;
pub mod cookie;
pub mod error;
pub mod state;
