use mqtt2prom::metrics::{MetricFamily, ShellyMetrics};
use mqtt2prom::mqtt::{
    supervisor_step, topic_matches, BrokerEvent, PublishOutcome, SupervisorAction,
    SupervisorState, RECONNECT_DELAY_SECS,
};

#[test]
fn test_topic_filtering() {
    assert!(topic_matches("mostert/shelly/events/rpc"));
    assert!(!topic_matches("mostert/shelly/online"));
    assert!(!topic_matches("other/topic"));
}

const FULL_STATUS: &str = r#"{"src":"shellyplugus-d48afc781ad8","method":"NotifyFullStatus","params":{"switch:0":{"id":0,"output":true,"apower":125.5,"voltage":122.3,"current":1.025,"aenergy":{"total":3949.949}}}}"#;

#[test]
fn test_handle_message_updates() {
    let mut metrics = ShellyMetrics::new();
    let (outcome, _updates) = metrics.handle_message(
        "root/family/plugcoffee/events/rpc",
        FULL_STATUS.as_bytes(),
    );
    assert_eq!(outcome, PublishOutcome::Updated);
    assert_eq!(
        metrics.get(MetricFamily::Power, "plugcoffee", Some("0")),
        Some(125)
    );
}

#[test]
fn test_handle_message_skips_other_topics() {
    let mut metrics = ShellyMetrics::new();
    let (outcome, _updates) = metrics.handle_message("mostert/shelly/online", FULL_STATUS.as_bytes());
    assert_eq!(outcome, PublishOutcome::SkippedTopic);
    assert_eq!(metrics.get(MetricFamily::Power, "plugcoffee", Some("0")), None);
}

#[test]
fn test_handle_message_invalid_utf8() {
    let mut metrics = ShellyMetrics::new();
    let (outcome, _updates) = metrics.handle_message("a/b/c/events/rpc", &[0xff, 0xfe, 0x80]);
    assert_eq!(outcome, PublishOutcome::InvalidUtf8);
}

#[test]
fn test_handle_message_malformed_payload() {
    // A malformed byte sequence mutates no gauge.
    let mut metrics = ShellyMetrics::new();
    let (outcome, _updates) = metrics.handle_message("a/b/c/events/rpc", b"{{{ not json");
    assert_eq!(outcome, PublishOutcome::ParseFailed);
    assert_eq!(metrics.get(MetricFamily::Power, "c", Some("0")), None);
}

#[test]
fn test_handle_message_event_ignored() {
    // An event notification is dropped after decoding; no gauge moves.
    let mut metrics = ShellyMetrics::new();
    let payload = r#"{"src":"shellyplugus-aa","method":"NotifyEvent","params":{}}"#;
    let (outcome, _updates) = metrics.handle_message("a/b/aa/events/rpc", payload.as_bytes());
    assert_eq!(outcome, PublishOutcome::IgnoredEvent);
    assert_eq!(metrics.get(MetricFamily::Power, "aa", Some("0")), None);
}

#[test]
fn test_reconnect_steps() {
    // N consecutive connection failures: N delayed retries, still connecting.
    assert_eq!(RECONNECT_DELAY_SECS, 5);
    let mut state = SupervisorState::Connecting;
    let mut retries = 0;
    for _ in 0..7 {
        let (next, action) = supervisor_step(state, BrokerEvent::ConnectFailed);
        assert_eq!(next, SupervisorState::Connecting);
        assert_eq!(action, SupervisorAction::RetryAfterDelay);
        retries += 1;
        state = next;
    }
    assert_eq!(retries, 7);

    // After a success the machine moves on to subscribing, then streaming.
    let (state, action) = supervisor_step(state, BrokerEvent::ConnectOk);
    assert_eq!(state, SupervisorState::Subscribing);
    assert_eq!(action, SupervisorAction::Subscribe);
    let (state, action) = supervisor_step(state, BrokerEvent::SubscribeOk);
    assert_eq!(state, SupervisorState::Streaming);
    assert_eq!(action, SupervisorAction::AwaitEvent);
    let (state, action) = supervisor_step(state, BrokerEvent::PublishReceived);
    assert_eq!(state, SupervisorState::Streaming);
    assert_eq!(action, SupervisorAction::ProcessPublish);
    let (state, action) = supervisor_step(state, BrokerEvent::TransportError);
    assert_eq!(state, SupervisorState::Connecting);
    assert_eq!(action, SupervisorAction::RetryAfterDelay);
}
