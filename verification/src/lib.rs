//! Bridges telemetry that smart switches and sensors publish over MQTT into
//! Prometheus-style gauges: decodes each notification, derives a stable
//! device identity, scales readings into integer gauge cells, and decides the
//! connect-subscribe-stream-reconnect life cycle of the broker session.
//!
//! Every function here carries a proved contract. The parse pipeline is
//! specified against the decoded JSON document, the metric mapper against a
//! row-by-row table of gauge writes, and the store against a map from label
//! tuples to values, with proved laws: repeated messages are idempotent,
//! absent fields leave their gauges untouched, and connection failures only
//! ever lead back to another attempt.

use vstd::prelude::*;

pub mod config;
pub mod json;
pub mod metrics;
pub mod mqtt;
pub mod num;
pub mod parser;
pub mod util;

verus! {

} // verus!
