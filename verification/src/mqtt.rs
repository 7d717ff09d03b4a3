use vstd::prelude::*;
use vstd::string::StrSliceExecFns;
use vstd::utf8::{valid_utf8, decode_utf8};
use crate::metrics::{ShellyMetrics, GaugeUpdate, apply_updates, updates_of, updates_view};
use crate::parser::{parse_message, spec_message, ParserError, MessageMethod};
use crate::json::json_of;

verus! {

/// The fixed back-off, in seconds, between a connection loss or failure and
/// the next attempt: constant on purpose, so recovery latency stays bounded
/// and predictable.
pub const RECONNECT_DELAY_SECS: u64 = 5;

/// Only topics ending in this fixed suffix carry metric notifications.
pub open spec fn is_rpc_topic(t: Seq<char>) -> bool {
    t.len() >= 11 && t.subrange(t.len() - 11, t.len() as int) == "/events/rpc"@
}

/// Whether a publish topic ends in `/events/rpc` and is processed for
/// metrics; everything else (presence channels, announcements) is dropped.
pub fn topic_matches(topic: &str) -> (r: bool)
    ensures
        r == is_rpc_topic(topic@),
{
    let n = topic.unicode_len();
    if n < 11 {
        return false;
    }
    let tail = topic.substring_char(n - 11, n);
    crate::util::str_eq(tail, "/events/rpc")
}

/// Relies on `std::str::from_utf8`: succeeds exactly on valid UTF-8 and
/// yields the decoding of those bytes.
#[verifier::external_body]
fn utf8_str(bytes: &[u8]) -> (r: Option<&str>)
    ensures
        r is Some <==> valid_utf8(bytes@),
        r matches Some(s) ==> s@ == decode_utf8(bytes@),
{
    std::str::from_utf8(bytes).ok()
}

/// What one inbound publish did to the store.
#[derive(Clone, Copy, Debug, PartialEq, Eq, Structural)]
pub enum PublishOutcome {
    /// The topic does not end in the metrics suffix; nothing was touched.
    SkippedTopic,
    /// The payload was not valid UTF-8 text; nothing was touched.
    InvalidUtf8,
    /// The payload failed the structural decode; nothing was touched.
    ParseFailed,
    /// The payload decoded to an event notification, which carries no
    /// metrics; nothing was touched.
    IgnoredEvent,
    /// The message was mapped and its rows written.
    Updated,
}

impl ShellyMetrics {
    /// The whole per-publish pipeline: topic filter, text decode, structural
    /// parse, ignore policy, then the metric mapper. Only a decoded,
    /// non-event message changes the store; the writes it produced come back
    /// with the outcome, so an outside sink can mirror them.
    pub fn handle_message(&mut self, topic: &str, payload: &[u8]) -> (r: (
        PublishOutcome,
        Vec<GaugeUpdate>,
    ))
        ensures
            !is_rpc_topic(topic@) ==> r.0 == PublishOutcome::SkippedTopic && final(self)@ == old(
                self,
            )@ && r.1@.len() == 0,
            is_rpc_topic(topic@) && !valid_utf8(payload@) ==> r.0 == PublishOutcome::InvalidUtf8
                && final(self)@ == old(self)@ && r.1@.len() == 0,
            is_rpc_topic(topic@) && valid_utf8(payload@) ==> match json_of(decode_utf8(payload@)) {
                None => r.0 == PublishOutcome::ParseFailed && final(self)@ == old(self)@
                    && r.1@.len() == 0,
                Some(j) => match spec_message(j) {
                    None => r.0 == PublishOutcome::ParseFailed && final(self)@ == old(self)@
                        && r.1@.len() == 0,
                    Some(mv) => if mv.method == MessageMethod::NotifyEvent {
                        r.0 == PublishOutcome::IgnoredEvent && final(self)@ == old(self)@
                            && r.1@.len() == 0
                    } else {
                        r.0 == PublishOutcome::Updated && final(self)@ == apply_updates(
                            old(self)@,
                            updates_of(mv, Some(topic@)),
                        ) && updates_view(r.1@) == updates_of(mv, Some(topic@))
                    },
                },
            },
    {
        if !topic_matches(topic) {
            return (PublishOutcome::SkippedTopic, Vec::new());
        }
        let text = match utf8_str(payload) {
            Some(s) => s,
            None => {
                return (PublishOutcome::InvalidUtf8, Vec::new());
            },
        };
        match parse_message(text) {
            Ok(msg) => {
                let updates = self.update_from_message(&msg, Some(topic));
                (PublishOutcome::Updated, updates)
            },
            Err(e) => match e {
                ParserError::IgnoredMessage(_) => (PublishOutcome::IgnoredEvent, Vec::new()),
                _ => (PublishOutcome::ParseFailed, Vec::new()),
            },
        }
    }
}

/// Where the broker session stands.
#[derive(Clone, Copy, Debug, PartialEq, Eq, Structural)]
pub enum SupervisorState {
    /// A session is being opened.
    Connecting,
    /// The session is up; the subscribe request is outstanding.
    Subscribing,
    /// Subscribed; inbound publish events are being pumped.
    Streaming,
}

/// What the broker reported to the supervisor.
#[derive(Clone, Copy, Debug, PartialEq, Eq, Structural)]
pub enum BrokerEvent {
    ConnectOk,
    ConnectFailed,
    SubscribeOk,
    SubscribeFailed,
    PublishReceived,
    ConnectionClosed,
    TransportError,
    OtherEvent,
}

/// What the driving loop must do next.
#[derive(Clone, Copy, Debug, PartialEq, Eq, Structural)]
pub enum SupervisorAction {
    /// Issue the subscribe request.
    Subscribe,
    /// Wait for the next broker event.
    AwaitEvent,
    /// Hand the publish's topic and payload to `handle_message`.
    ProcessPublish,
    /// Sleep `RECONNECT_DELAY_SECS`, then open a session again.
    RetryAfterDelay,
}

/// The connection life cycle: connect, subscribe, stream, and on any failure
/// fall back to connecting after the fixed delay — never a terminal state.
/// An event that does not belong to the current state is waited out.
pub open spec fn spec_step(s: SupervisorState, e: BrokerEvent) -> (
    SupervisorState,
    SupervisorAction,
) {
    match (s, e) {
        (SupervisorState::Connecting, BrokerEvent::ConnectOk) => (
            SupervisorState::Subscribing,
            SupervisorAction::Subscribe,
        ),
        (SupervisorState::Connecting, BrokerEvent::ConnectFailed) => (
            SupervisorState::Connecting,
            SupervisorAction::RetryAfterDelay,
        ),
        (SupervisorState::Subscribing, BrokerEvent::SubscribeOk) => (
            SupervisorState::Streaming,
            SupervisorAction::AwaitEvent,
        ),
        (SupervisorState::Subscribing, BrokerEvent::SubscribeFailed) => (
            SupervisorState::Connecting,
            SupervisorAction::RetryAfterDelay,
        ),
        (SupervisorState::Streaming, BrokerEvent::PublishReceived) => (
            SupervisorState::Streaming,
            SupervisorAction::ProcessPublish,
        ),
        (SupervisorState::Streaming, BrokerEvent::ConnectionClosed) => (
            SupervisorState::Connecting,
            SupervisorAction::RetryAfterDelay,
        ),
        (SupervisorState::Streaming, BrokerEvent::TransportError) => (
            SupervisorState::Connecting,
            SupervisorAction::RetryAfterDelay,
        ),
        (s, _) => (s, SupervisorAction::AwaitEvent),
    }
}

/// Advance the supervisor one broker event.
pub fn supervisor_step(s: SupervisorState, e: BrokerEvent) -> (r: (
    SupervisorState,
    SupervisorAction,
))
    ensures
        r == spec_step(s, e),
{
    match (s, e) {
        (SupervisorState::Connecting, BrokerEvent::ConnectOk) => (
            SupervisorState::Subscribing,
            SupervisorAction::Subscribe,
        ),
        (SupervisorState::Connecting, BrokerEvent::ConnectFailed) => (
            SupervisorState::Connecting,
            SupervisorAction::RetryAfterDelay,
        ),
        (SupervisorState::Subscribing, BrokerEvent::SubscribeOk) => (
            SupervisorState::Streaming,
            SupervisorAction::AwaitEvent,
        ),
        (SupervisorState::Subscribing, BrokerEvent::SubscribeFailed) => (
            SupervisorState::Connecting,
            SupervisorAction::RetryAfterDelay,
        ),
        (SupervisorState::Streaming, BrokerEvent::PublishReceived) => (
            SupervisorState::Streaming,
            SupervisorAction::ProcessPublish,
        ),
        (SupervisorState::Streaming, BrokerEvent::ConnectionClosed) => (
            SupervisorState::Connecting,
            SupervisorAction::RetryAfterDelay,
        ),
        (SupervisorState::Streaming, BrokerEvent::TransportError) => (
            SupervisorState::Connecting,
            SupervisorAction::RetryAfterDelay,
        ),
        (other, _) => (other, SupervisorAction::AwaitEvent),
    }
}

/// The states and actions a run of the supervisor passes through, one entry
/// per broker event.
pub open spec fn run_trace(s: SupervisorState, events: Seq<BrokerEvent>) -> Seq<
    (SupervisorState, SupervisorAction),
>
    decreases events.len(),
{
    if events.len() == 0 {
        Seq::empty()
    } else {
        let step = spec_step(s, events[0]);
        seq![step] + run_trace(step.0, events.skip(1))
    }
}

/// Law: N consecutive connection failures produce exactly N delayed retry
/// actions — one connect attempt per failure, each separated by the fixed
/// delay — and leave the supervisor connecting still: no run of failures
/// reaches a terminal state, so the process stays alive.
pub proof fn lemma_reconnect_persistence(events: Seq<BrokerEvent>)
    requires
        forall|i: int| 0 <= i < events.len() ==> events[i] == BrokerEvent::ConnectFailed,
    ensures
        run_trace(SupervisorState::Connecting, events).len() == events.len(),
        forall|i: int|
            0 <= i < events.len() ==> run_trace(SupervisorState::Connecting, events)[i] == (
            SupervisorState::Connecting,
            SupervisorAction::RetryAfterDelay,
        ),
    decreases events.len(),
{
    if events.len() > 0 {
        assert(events.skip(1).len() == events.len() - 1);
        assert forall|i: int| 0 <= i < events.skip(1).len() implies events.skip(1)[i]
            == BrokerEvent::ConnectFailed by {
            assert(events.skip(1)[i] == events[i + 1]);
        }
        lemma_reconnect_persistence(events.skip(1));
    }
}

} // verus!
