//! Error kinds surfaced by the connection state.

use vstd::prelude::*;

verus! {

/// What went wrong on the acquisition or cleanup path.
///
/// Release-path failures are deliberately not represented here: a problem on
/// the return channel is swallowed by the caller of
/// [`crate::state::AppState::return_cookie`], never surfaced.
#[derive(Clone, Copy, Debug, PartialEq, Eq)]
pub enum ClewdrError {
    /// A broker channel endpoint is gone: the request channel was closed
    /// before the lease request could be delivered.
    ChannelDisconnected,
    /// The broker dropped the single-use reply slot without answering.
    ChannelReceiveFailed,
    /// The broker explicitly answered the lease request with a failure.
    BrokerReportedFailure,
    /// The configured endpoint is not a well-formed origin URL.
    UrlParseFailed,
    /// The credential's token is not a syntactically valid cookie pair.
    CookieParseFailed,
    /// The conversation deletion call failed at the transport level.
    HttpTransportFailed,
}

} // verus!
