use mqtt2prom::num::Decimal;
use mqtt2prom::parser::{
    extract_device_from_topic, extract_device_id, parse_message, should_process, MessageMethod,
    ParserError,
};

fn dec(neg: bool, mantissa: u64, exp: i32) -> Decimal {
    Decimal { neg, mantissa, exp }
}

#[test]
fn test_parse_notify_full_status() {
    let json = r#"{
        "src": "shellyplugus-d48afc781ad8",
        "dst": "mostert/shelly/events",
        "method": "NotifyFullStatus",
        "params": {
            "switch:0": {
                "id": 0,
                "output": false,
                "apower": 125.5,
                "voltage": 122.3,
                "current": 1.025,
                "aenergy": {
                    "total": 3949.949
                },
                "temperature": {
                    "tC": 37.9,
                    "tF": 100.1
                }
            },
            "wifi": {
                "rssi": -40
            }
        }
    }"#;

    let msg = parse_message(json).unwrap();

    assert_eq!(msg.src, "shellyplugus-d48afc781ad8");
    assert_eq!(msg.method, MessageMethod::NotifyFullStatus);

    let switch = msg.params.switch.as_ref().unwrap();
    assert_eq!(switch.id, 0);
    assert_eq!(switch.output, Some(false));
    assert_eq!(switch.apower, Some(dec(false, 1255, -1)));
    assert_eq!(switch.voltage, Some(dec(false, 1223, -1)));
    assert_eq!(switch.current, Some(dec(false, 1025, -3)));
    assert_eq!(switch.aenergy.total, dec(false, 3949949, -3));

    let temp = switch.temperature.as_ref().unwrap();
    assert_eq!(temp.tc, dec(false, 379, -1));
    assert_eq!(temp.tf, dec(false, 1001, -1));

    let wifi = msg.params.wifi.as_ref().unwrap();
    assert_eq!(wifi.rssi, -40);
}

#[test]
fn test_parse_notify_status_energy_update() {
    let json = r#"{
        "src": "shellyplugus-d48afc781ad8",
        "method": "NotifyStatus",
        "params": {
            "switch:0": {
                "id": 0,
                "aenergy": {
                    "by_minute": [0.0, 0.0, 0.0],
                    "minute_ts": 1763918640,
                    "total": 3949.949
                }
            }
        }
    }"#;

    let msg = parse_message(json).unwrap();

    assert_eq!(msg.method, MessageMethod::NotifyStatus);
    let switch = msg.params.switch.as_ref().unwrap();
    assert_eq!(switch.aenergy.total, dec(false, 3949949, -3));
    assert_eq!(
        switch.aenergy.by_minute,
        Some(vec![dec(false, 0, -1), dec(false, 0, -1), dec(false, 0, -1)])
    );
    assert_eq!(switch.aenergy.minute_ts, Some(1763918640));
}

#[test]
fn test_parse_notify_event_ignored() {
    let json = r#"{
        "src": "shellyplugus-d48afc781ad8",
        "method": "NotifyEvent",
        "params": {
            "events": []
        }
    }"#;

    let result = parse_message(json);
    assert!(result.is_err());
    assert!(matches!(result.unwrap_err(), ParserError::IgnoredMessage(_)));
}

#[test]
fn test_extract_device_id() {
    assert_eq!(
        extract_device_id("shellyplugus-d48afc781ad8"),
        "d48afc781ad8"
    );

    assert_eq!(extract_device_id("shellyht-abc123"), "abc123");

    // Edge case: no dash
    assert_eq!(extract_device_id("nodash"), "nodash");
}

#[test]
fn test_should_process() {
    assert!(should_process(&MessageMethod::NotifyFullStatus));
    assert!(should_process(&MessageMethod::NotifyStatus));
    assert!(!should_process(&MessageMethod::NotifyEvent));
}

#[test]
fn test_invalid_json() {
    let json = r#"{"invalid": "json"}"#;
    let result = parse_message(json);
    assert!(result.is_err());
}

#[test]
fn test_not_json_at_all() {
    let result = parse_message("not json at all {{{");
    assert!(matches!(result.unwrap_err(), ParserError::JsonError(_)));
}

#[test]
fn test_extract_device_from_topic() {
    assert_eq!(
        extract_device_from_topic("root/family/plugcoffee/events/rpc"),
        Some("plugcoffee".to_string())
    );
    assert_eq!(extract_device_from_topic("mostert/shelly/events/rpc"), None);
    assert_eq!(extract_device_from_topic("a/b/c/d"), None);
    assert_eq!(extract_device_from_topic(""), None);
    assert_eq!(
        extract_device_from_topic("root/family/dev/events/rpc/extra"),
        None
    );
}

#[test]
fn test_unknown_fields_ignored() {
    let json = r#"{
        "src": "shellyplugus-aa",
        "method": "NotifyStatus",
        "firmware": "1.2.3",
        "params": {
            "switch:0": {
                "id": 1,
                "aenergy": {"total": 2},
                "novel_field": [1, 2, {"x": null}]
            },
            "cloud": {"connected": true}
        }
    }"#;
    let msg = parse_message(json).unwrap();
    let switch = msg.params.switch.as_ref().unwrap();
    assert_eq!(switch.id, 1);
    assert_eq!(switch.aenergy.total, dec(false, 2, 0));
    assert_eq!(switch.apower, None);
}

#[test]
fn test_missing_aenergy_is_malformed() {
    // The cumulative-energy total is the one mandatory switch field.
    let json = r#"{
        "src": "shellyplugus-aa",
        "method": "NotifyStatus",
        "params": {"switch:0": {"id": 0}}
    }"#;
    assert!(matches!(
        parse_message(json).unwrap_err(),
        ParserError::JsonError(_)
    ));
}
