//! The per-connection state: the credential lease/return protocol, the
//! session-binding step, and the conversation-cleanup plan.
//!
//! The connection state is a decision core. The surrounding runtime performs
//! the channel sends, the awaits and the HTTP calls, feeds what it observed
//! into [`AppState::request_cookie`], and carries out the actions returned by
//! [`AppState::return_cookie`] and [`AppState::delete_chat`].

use vstd::prelude::*;

use crate::config::Config;
use crate::config::CookieStatus;
use crate::config::Reason;
use crate::cookie::CookieBinding;
use crate::cookie::binding_error;
use crate::cookie::check_cookie_pair;
use crate::cookie::check_endpoint;
use crate::error::ClewdrError;

verus! {

/// What the runtime observed while asking the broker for a credential:
/// the single suspension point of the lease protocol, reified as an event.
pub enum LeaseEvent {
    /// The broker answered the reply slot with a credential.
    Granted(CookieStatus),
    /// The broker answered the reply slot with a failure of its own.
    Refused(ClewdrError),
    /// The request channel was closed before the reply slot could be sent.
    RequestClosed,
    /// The broker dropped the reply slot without answering.
    ReplyDropped,
}

/// State of one inbound connection: holds at most one leased credential,
/// the shared configuration, and the remote identifiers the proxied
/// exchange created.
pub struct AppState {
    /// The leased credential, if one is currently held.
    pub cookie: Option<CookieStatus>,
    /// The shared, read-only process configuration.
    pub config: Config,
    /// The remote organization identifier, once the exchange created it.
    pub org_uuid: Option<String>,
    /// The remote conversation identifier, once the exchange created it.
    pub conv_uuid: Option<String>,
}

/// The state after a release: the credential slot is empty, everything else
/// is untouched.
pub open spec fn released(s: AppState) -> AppState {
    AppState { cookie: None, ..s }
}

/// The message a release puts on the return channel: the held credential
/// paired with the outcome reason, or nothing when no credential is held.
pub open spec fn release_message(s: AppState, reason: Option<Reason>) -> Option<
    (CookieStatus, Option<Reason>),
> {
    match s.cookie {
        Some(c) => Some((c, reason)),
        None => None,
    }
}

/// The URL of the conversation deletion call for the given endpoint and
/// identifiers.
pub open spec fn delete_url(endpoint: Seq<char>, org: Seq<char>, conv: Seq<char>) -> Seq<char> {
    endpoint + "/api/organizations/"@ + org + "/chat_conversations/"@ + conv
}

/// The deletion call conversation cleanup must issue, if any: none unless
/// both identifiers are present and preserving chats is switched off.
pub open spec fn cleanup_request(s: AppState) -> Option<Seq<char>> {
    match (s.org_uuid, s.conv_uuid) {
        (Some(org), Some(conv)) => if s.config.preserve_chats {
            None
        } else {
            Some(delete_url(s.config.endpoint@, org@, conv@))
        },
        _ => None,
    }
}

impl AppState {
    /// Creates the state for a fresh inbound request: no credential held,
    /// no identifiers tracked.
    pub fn new(config: Config) -> (r: AppState)
        ensures
            r.cookie is None,
            r.org_uuid is None,
            r.conv_uuid is None,
            r.config == config,
    {
        AppState { cookie: None, config, org_uuid: None, conv_uuid: None }
    }

    /// The session-binding step: validates the credential's token and the
    /// configured endpoint, and returns the binding to install into the
    /// shared HTTP client's cookie store. Does not change this state.
    pub fn store_cookie(&self, cookie: &CookieStatus) -> (r: Result<CookieBinding, ClewdrError>)
        ensures
            binding_error(self.config.endpoint@, cookie.cookie@) matches Some(e) ==> r == Err::<
                CookieBinding,
                ClewdrError,
            >(e),
            binding_error(self.config.endpoint@, cookie.cookie@) is None ==> (r matches Ok(b)
                && b.origin@ == self.config.endpoint@ && b.cookie@ == cookie.cookie@),
    {
        if !check_endpoint(self.config.endpoint.as_str()) {
            return Err(ClewdrError::UrlParseFailed);
        }
        if !check_cookie_pair(cookie.cookie.as_str()) {
            return Err(ClewdrError::CookieParseFailed);
        }
        Ok(CookieBinding { origin: self.config.endpoint.clone(), cookie: cookie.cookie.clone() })
    }

    /// The decision step of `acquire`: consumes what the runtime observed on
    /// the lease channels and updates the held credential accordingly.
    ///
    /// A granted credential is stored, and the session binding for it is
    /// returned for the runtime to install; if the binding is invalid, the
    /// error is surfaced but the credential stays held, so the caller's
    /// error path still releases it. On every other event the state is
    /// unchanged and the failure is surfaced: a broker failure is forwarded,
    /// a closed request channel and a dropped reply slot are reported as the
    /// two channel errors.
    pub fn request_cookie(&mut self, event: LeaseEvent) -> (r: Result<CookieBinding, ClewdrError>)
        ensures
            event matches LeaseEvent::Granted(c) ==> {
                &&& final(self).cookie == Some(c)
                &&& (binding_error(old(self).config.endpoint@, c.cookie@) matches Some(e) ==> r
                    == Err::<CookieBinding, ClewdrError>(e))
                &&& (binding_error(old(self).config.endpoint@, c.cookie@) is None ==> (r matches Ok(
                    b,
                ) && b.origin@ == old(self).config.endpoint@ && b.cookie@ == c.cookie@))
            },
            !(event is Granted) ==> *final(self) == *old(self) && r is Err,
            event matches LeaseEvent::Refused(e) ==> r == Err::<CookieBinding, ClewdrError>(e),
            event is RequestClosed ==> r == Err::<CookieBinding, ClewdrError>(
                ClewdrError::ChannelDisconnected,
            ),
            event is ReplyDropped ==> r == Err::<CookieBinding, ClewdrError>(
                ClewdrError::ChannelReceiveFailed,
            ),
            r is Ok ==> final(self).cookie is Some,
            final(self).config == old(self).config,
            final(self).org_uuid == old(self).org_uuid,
            final(self).conv_uuid == old(self).conv_uuid,
    {
        match event {
            LeaseEvent::Granted(c) => {
                let binding = self.store_cookie(&c);
                self.cookie = Some(c);
                binding
            },
            LeaseEvent::Refused(e) => Err(e),
            LeaseEvent::RequestClosed => Err(ClewdrError::ChannelDisconnected),
            LeaseEvent::ReplyDropped => Err(ClewdrError::ChannelReceiveFailed),
        }
    }

    /// The decision step of `release`: empties the credential slot and
    /// returns the message to put on the return channel, if any.
    ///
    /// Releasing with no credential held is a no-op, never an error. The
    /// runtime sends the returned message best-effort: a return-channel
    /// failure is logged and swallowed, never surfaced to the caller.
    pub fn return_cookie(&mut self, reason: Option<Reason>) -> (msg: Option<
        (CookieStatus, Option<Reason>),
    >)
        ensures
            *final(self) == released(*old(self)),
            msg == release_message(*old(self), reason),
            final(self).cookie is None,
            old(self).cookie is None ==> msg is None,
    {
        match self.cookie.take() {
            Some(c) => Some((c, reason)),
            None => None,
        }
    }

    /// The decision step of conversation cleanup: the URL of the deletion
    /// call the runtime must issue, or `None` when cleanup is a successful
    /// no-op. Does not change this state.
    ///
    /// Each precondition short-circuits in order: no organization
    /// identifier, no conversation identifier, or the configured wish to
    /// preserve chats, and nothing is to be deleted.
    pub fn delete_chat(&self) -> (r: Option<String>)
        ensures
            r is None <==> cleanup_request(*self) is None,
            r matches Some(url) ==> cleanup_request(*self) == Some(url@),
    {
        let org = match &self.org_uuid {
            Some(org) => org,
            None => { return None; },
        };
        let conv = match &self.conv_uuid {
            Some(conv) => conv,
            None => { return None; },
        };
        if self.config.preserve_chats {
            return None;
        }
        let mut url = self.config.endpoint.clone();
        url.append("/api/organizations/");
        url.append(org.as_str());
        url.append("/chat_conversations/");
        url.append(conv.as_str());
        Some(url)
    }
}

/// Interprets the transport outcome of the deletion call: any delivered
/// response is success (the response body is discarded); only a
/// transport-level failure is surfaced.
pub fn delete_chat_outcome(transport_ok: bool) -> (r: Result<(), ClewdrError>)
    ensures
        r is Ok <==> transport_ok,
        !transport_ok ==> r == Err::<(), ClewdrError>(ClewdrError::HttpTransportFailed),
{
    if transport_ok {
        Ok(())
    } else {
        Err(ClewdrError::HttpTransportFailed)
    }
}

/// Releasing is idempotent: two releases in a row without an intervening
/// acquire put at most one message on the return channel, whatever the two
/// reasons are. The first sends a message exactly when a credential is
/// held; the second finds the slot already empty, sends nothing, and
/// leaves the state as the first left it.
pub proof fn lemma_release_idempotent(s: AppState, r1: Option<Reason>, r2: Option<Reason>)
    ensures
        release_message(s, r1) is Some <==> s.cookie is Some,
        release_message(released(s), r2) is None,
        released(released(s)) == released(s),
{
}

} // verus!
