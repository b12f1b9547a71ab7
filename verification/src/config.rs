//! Plain data shared between the connection state and its collaborators:
//! the process configuration, the leased credential, and the outcome reason
//! attached to a returned credential.

use vstd::prelude::*;

verus! {

/// Why a credential is being returned to the broker.
///
/// The connection state never interprets a reason; it only forwards it on
/// the return channel.
#[derive(Clone, Copy, Debug, PartialEq, Eq)]
pub enum Reason {
    /// The credential is healthy and may be reused at once.
    Healthy,
    /// The remote service rate-limited the credential.
    RateLimited,
    /// The remote service banned the credential.
    Banned,
    /// The credential's quota is exhausted.
    Exhausted,
}

/// A single rotating session credential, identified by its token value.
///
/// Ownership transfers by moving the whole value: the broker hands it out on
/// a lease and receives it back on release, so at most one holder has it.
#[derive(Debug)]
pub struct CookieStatus {
    /// The session token, in `name=value` cookie form.
    pub cookie: String,
}

/// Process-wide configuration, read-only after start; every connection state
/// derived from the same process reads the same values.
#[derive(Debug)]
pub struct Config {
    /// Base URL of the remote chat service.
    pub endpoint: String,
    /// When true, conversation cleanup never deletes the remote conversation.
    pub preserve_chats: bool,
    /// Optional outbound proxy descriptor, forwarded to the transport.
    pub proxy_config: Option<String>,
}

impl Config {
    /// The configured base URL of the remote service.
    pub fn endpoint(&self) -> (r: &str)
        ensures
            r@ == self.endpoint@,
    {
        self.endpoint.as_str()
    }
}

} // verus!
