use clewdr_state::config::Config;
use clewdr_state::config::CookieStatus;
use clewdr_state::config::Reason;
use clewdr_state::error::ClewdrError;
use clewdr_state::state::delete_chat_outcome;
use clewdr_state::state::AppState;
use clewdr_state::state::LeaseEvent;

fn test_config(endpoint: &str, preserve_chats: bool) -> Config {
    Config {
        endpoint: endpoint.to_string(),
        preserve_chats,
        proxy_config: None,
    }
}

fn credential(token: &str) -> CookieStatus {
    CookieStatus {
        cookie: token.to_string(),
    }
}

#[test]
fn acquire_granted_binds_cookie() {
    let mut st = AppState::new(test_config("https://chat.example.com", false));
    let r = st.request_cookie(LeaseEvent::Granted(credential("sess=abc123")));
    let binding = r.expect("a granted credential must bind");
    assert_eq!(binding.origin, "https://chat.example.com");
    assert_eq!(binding.cookie, "sess=abc123");
    let held = st.cookie.as_ref().expect("exactly one credential is held");
    assert_eq!(held.cookie, "sess=abc123");
}

#[test]
fn acquire_channel_disconnected() {
    let mut st = AppState::new(test_config("https://chat.example.com", false));
    let r = st.request_cookie(LeaseEvent::RequestClosed);
    assert_eq!(r.err(), Some(ClewdrError::ChannelDisconnected));
    assert!(st.cookie.is_none());
}

#[test]
fn acquire_reply_dropped() {
    let mut st = AppState::new(test_config("https://chat.example.com", false));
    let r = st.request_cookie(LeaseEvent::ReplyDropped);
    assert_eq!(r.err(), Some(ClewdrError::ChannelReceiveFailed));
    assert!(st.cookie.is_none());
}

#[test]
fn acquire_forwards_broker_failure() {
    let mut st = AppState::new(test_config("https://chat.example.com", false));
    let r = st.request_cookie(LeaseEvent::Refused(ClewdrError::BrokerReportedFailure));
    assert_eq!(r.err(), Some(ClewdrError::BrokerReportedFailure));
    assert!(st.cookie.is_none());
}

#[test]
fn acquire_bad_endpoint_keeps_credential_held() {
    let mut st = AppState::new(test_config("not a url", false));
    let r = st.request_cookie(LeaseEvent::Granted(credential("sess=abc123")));
    assert_eq!(r.err(), Some(ClewdrError::UrlParseFailed));
    let held = st.cookie.as_ref().expect("binding failure leaves the lease held");
    assert_eq!(held.cookie, "sess=abc123");
}

#[test]
fn acquire_bad_token_keeps_credential_held() {
    let mut st = AppState::new(test_config("https://chat.example.com", false));
    let r = st.request_cookie(LeaseEvent::Granted(credential("no token at all")));
    assert_eq!(r.err(), Some(ClewdrError::CookieParseFailed));
    let held = st.cookie.as_ref().expect("binding failure leaves the lease held");
    assert_eq!(held.cookie, "no token at all");
}

#[test]
fn release_sends_credential_and_reason() {
    let mut st = AppState::new(test_config("https://chat.example.com", false));
    st.request_cookie(LeaseEvent::Granted(credential("sess=abc123")))
        .expect("acquire");
    let msg = st.return_cookie(Some(Reason::RateLimited));
    let (cred, reason) = msg.expect("a held credential must be returned");
    assert_eq!(cred.cookie, "sess=abc123");
    assert_eq!(reason, Some(Reason::RateLimited));
    assert!(st.cookie.is_none());
}

#[test]
fn release_twice_sends_at_most_one_message() {
    let mut st = AppState::new(test_config("https://chat.example.com", false));
    st.request_cookie(LeaseEvent::Granted(credential("sess=abc123")))
        .expect("acquire");
    assert!(st.return_cookie(Some(Reason::Healthy)).is_some());
    assert!(st.return_cookie(Some(Reason::Healthy)).is_none());
    assert!(st.cookie.is_none());
}

#[test]
fn release_without_credential_is_a_noop() {
    let mut st = AppState::new(test_config("https://chat.example.com", false));
    assert!(st.return_cookie(None).is_none());
    assert!(st.cookie.is_none());
}

#[test]
fn cleanup_noop_without_organization_id() {
    let mut st = AppState::new(test_config("https://chat.example.com", false));
    st.conv_uuid = Some("conv1".to_string());
    assert!(st.delete_chat().is_none());
}

#[test]
fn cleanup_noop_without_conversation_id() {
    let mut st = AppState::new(test_config("https://chat.example.com", false));
    st.org_uuid = Some("org1".to_string());
    assert!(st.delete_chat().is_none());
}

#[test]
fn cleanup_noop_when_preserving_chats() {
    let mut st = AppState::new(test_config("https://chat.example.com", true));
    st.org_uuid = Some("org1".to_string());
    st.conv_uuid = Some("conv1".to_string());
    assert!(st.delete_chat().is_none());
}

#[test]
fn cleanup_builds_the_delete_url_once() {
    let mut st = AppState::new(test_config("https://chat.example.com", false));
    st.org_uuid = Some("org1".to_string());
    st.conv_uuid = Some("conv1".to_string());
    let url = st.delete_chat().expect("cleanup must issue one deletion");
    assert_eq!(
        url,
        "https://chat.example.com/api/organizations/org1/chat_conversations/conv1"
    );
    // the remote call came back (e.g. HTTP 200): cleanup reports success
    assert!(delete_chat_outcome(true).is_ok());
}

#[test]
fn cleanup_surfaces_transport_failure() {
    assert_eq!(
        delete_chat_outcome(false),
        Err(ClewdrError::HttpTransportFailed)
    );
}

#[test]
fn new_state_is_empty() {
    let st = AppState::new(test_config("https://chat.example.com", false));
    assert!(st.cookie.is_none());
    assert!(st.org_uuid.is_none());
    assert!(st.conv_uuid.is_none());
    assert_eq!(st.config.endpoint(), "https://chat.example.com");
}
