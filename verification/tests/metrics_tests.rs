use mqtt2prom::metrics::{MetricFamily, ShellyMetrics};
use mqtt2prom::num::Decimal;
use mqtt2prom::parser::parse_message;

fn dec(neg: bool, mantissa: u64, exp: i32) -> Decimal {
    Decimal { neg, mantissa, exp }
}

#[test]
fn test_metrics_registration() {
    let names: Vec<&str> = MetricFamily::all().iter().map(|f| f.name()).collect();

    assert!(names.contains(&"shelly_switch_power_watts"));
    assert!(names.contains(&"shelly_switch_voltage_volts"));
    assert!(names.contains(&"shelly_switch_current_amps"));
    assert!(names.contains(&"shelly_switch_energy_total_wh"));
    assert!(names.contains(&"shelly_switch_state"));
    assert!(names.contains(&"shelly_temperature_celsius"));
    assert!(names.contains(&"shelly_humidity_percent"));
    assert!(names.contains(&"shelly_battery_percent"));
    assert!(names.contains(&"shelly_battery_voltage"));
    assert!(names.contains(&"shelly_wifi_rssi_dbm"));
    assert_eq!(names.len(), 10);
}

#[test]
fn test_update_individual_metrics() {
    let mut metrics = ShellyMetrics::new();

    metrics.update_power("device1", "0", &dec(false, 1255, -1));
    metrics.update_voltage("device1", "0", &dec(false, 1223, -1));
    metrics.update_current("device1", "0", &dec(false, 1025, -3));
    metrics.update_energy("device1", "0", &dec(false, 3949949, -3));

    assert_eq!(
        metrics.get(MetricFamily::Power, "device1", Some("0")),
        Some(125)
    );
    assert_eq!(
        metrics.get(MetricFamily::Voltage, "device1", Some("0")),
        Some(1223)
    );
    assert_eq!(
        metrics.get(MetricFamily::Current, "device1", Some("0")),
        Some(1025)
    );
    assert_eq!(
        metrics.get(MetricFamily::EnergyTotal, "device1", Some("0")),
        Some(39499)
    );
}

#[test]
fn test_update_from_message() {
    let mut metrics = ShellyMetrics::new();

    let json = r#"{
        "src": "shellyplugus-d48afc781ad8",
        "method": "NotifyFullStatus",
        "params": {
            "switch:0": {
                "id": 0,
                "output": true,
                "apower": 125.5,
                "voltage": 122.3,
                "current": 1.025,
                "aenergy": {"total": 3949.949},
                "temperature": {"tC": 37.9, "tF": 100.1}
            },
            "wifi": {"rssi": -40}
        }
    }"#;

    let msg = parse_message(json).unwrap();
    metrics.update_from_message(&msg, Some("mostert/shelly/plugcoffee/events/rpc"));

    // The topic-derived name "plugcoffee" wins over the MAC suffix.
    assert_eq!(
        metrics.get(MetricFamily::Power, "plugcoffee", Some("0")),
        Some(125)
    );
    assert_eq!(metrics.get(MetricFamily::Power, "d48afc781ad8", Some("0")), None);
    assert_eq!(
        metrics.get(MetricFamily::SwitchState, "plugcoffee", Some("0")),
        Some(1)
    );
    assert_eq!(
        metrics.get(MetricFamily::Temperature, "plugcoffee", None),
        Some(379)
    );
    assert_eq!(metrics.get(MetricFamily::WifiRssi, "plugcoffee", None), Some(-40));
}

#[test]
fn test_multiple_devices() {
    let mut metrics = ShellyMetrics::new();

    metrics.update_power("device1", "0", &dec(false, 1000, -1));
    metrics.update_power("device2", "0", &dec(false, 2000, -1));

    assert_eq!(
        metrics.get(MetricFamily::Power, "device1", Some("0")),
        Some(100)
    );
    assert_eq!(
        metrics.get(MetricFamily::Power, "device2", Some("0")),
        Some(200)
    );
}

#[test]
fn test_ht_sensor_message() {
    let mut metrics = ShellyMetrics::new();

    let json = r#"{
        "src": "shellyhtg3-3030f9e7d294",
        "dst": "mostert/shelly/temp-main/events",
        "method": "NotifyFullStatus",
        "params": {
            "temperature:0": {"id": 0, "tC": 18.0, "tF": 64.5},
            "humidity:0": {"id": 0, "rh": 38.9},
            "devicepower:0": {
                "id": 0,
                "battery": {"V": 5.41, "percent": 70},
                "external": {"present": false}
            },
            "wifi": {"rssi": -54}
        }
    }"#;

    let msg = parse_message(json).unwrap();
    metrics.update_from_message(&msg, Some("mostert/shelly/temp-main/events/rpc"));

    // Temperature 18.0 becomes 180 deci-celsius.
    assert_eq!(
        metrics.get(MetricFamily::Temperature, "temp-main", None),
        Some(180)
    );
    // Humidity 38.9 becomes 389.
    assert_eq!(
        metrics.get(MetricFamily::Humidity, "temp-main", None),
        Some(389)
    );
    assert_eq!(
        metrics.get(MetricFamily::BatteryPercent, "temp-main", None),
        Some(70)
    );
    // Battery 5.41 V becomes 541 centi-volts.
    assert_eq!(
        metrics.get(MetricFamily::BatteryVoltage, "temp-main", None),
        Some(541)
    );
    assert_eq!(metrics.get(MetricFamily::WifiRssi, "temp-main", None), Some(-54));
}

const FULL_STATUS: &str = r#"{"src":"shellyplugus-d48afc781ad8","method":"NotifyFullStatus","params":{"switch:0":{"id":0,"output":true,"apower":125.5,"voltage":122.3,"current":1.025,"aenergy":{"total":3949.949}}}}"#;

#[test]
fn test_full_status_with_topic() {
    let mut metrics = ShellyMetrics::new();
    let msg = parse_message(FULL_STATUS).unwrap();
    metrics.update_from_message(&msg, Some("root/family/plugcoffee/events/rpc"));

    assert_eq!(
        metrics.get(MetricFamily::Power, "plugcoffee", Some("0")),
        Some(125)
    );
    assert_eq!(
        metrics.get(MetricFamily::Voltage, "plugcoffee", Some("0")),
        Some(1223)
    );
    assert_eq!(
        metrics.get(MetricFamily::Current, "plugcoffee", Some("0")),
        Some(1025)
    );
    assert_eq!(
        metrics.get(MetricFamily::EnergyTotal, "plugcoffee", Some("0")),
        Some(39499)
    );
    assert_eq!(
        metrics.get(MetricFamily::SwitchState, "plugcoffee", Some("0")),
        Some(1)
    );
}

#[test]
fn test_full_status_without_topic() {
    // With no topic the MAC suffix of the source field labels the series.
    let mut metrics = ShellyMetrics::new();
    let msg = parse_message(FULL_STATUS).unwrap();
    metrics.update_from_message(&msg, None);

    assert_eq!(
        metrics.get(MetricFamily::Power, "d48afc781ad8", Some("0")),
        Some(125)
    );
    assert_eq!(
        metrics.get(MetricFamily::SwitchState, "d48afc781ad8", Some("0")),
        Some(1)
    );
    assert_eq!(metrics.get(MetricFamily::Power, "plugcoffee", Some("0")), None);
}

#[test]
fn test_idempotent_updates() {
    // Applying the same message twice leaves the same gauge values as once.
    let mut once = ShellyMetrics::new();
    let mut twice = ShellyMetrics::new();
    let msg = parse_message(FULL_STATUS).unwrap();
    once.update_from_message(&msg, None);
    twice.update_from_message(&msg, None);
    twice.update_from_message(&msg, None);

    for family in [
        MetricFamily::Power,
        MetricFamily::Voltage,
        MetricFamily::Current,
        MetricFamily::EnergyTotal,
        MetricFamily::SwitchState,
    ] {
        assert_eq!(
            once.get(family, "d48afc781ad8", Some("0")),
            twice.get(family, "d48afc781ad8", Some("0"))
        );
    }
}

#[test]
fn test_absent_field_leaves_gauge_untouched() {
    // A message with apower absent and voltage present updates only voltage.
    let mut metrics = ShellyMetrics::new();
    metrics.update_power("dev", "0", &dec(false, 77, 0));

    let json = r#"{
        "src": "shellyplugus-dev",
        "method": "NotifyStatus",
        "params": {"switch:0": {"id": 0, "voltage": 230.5, "aenergy": {"total": 1.0}}}
    }"#;
    let msg = parse_message(json).unwrap();
    metrics.update_from_message(&msg, None);

    assert_eq!(metrics.get(MetricFamily::Voltage, "dev", Some("0")), Some(2305));
    // The stale power value survives; no zero was written over it.
    assert_eq!(metrics.get(MetricFamily::Power, "dev", Some("0")), Some(77));
}

#[test]
fn test_negative_and_saturating_values() {
    let mut metrics = ShellyMetrics::new();
    // Truncation is toward zero: -125.5 W stores as -125.
    metrics.update_power("neg", "0", &dec(true, 1255, -1));
    assert_eq!(metrics.get(MetricFamily::Power, "neg", Some("0")), Some(-125));

    // A value beyond the gauge range saturates instead of wrapping.
    metrics.update_power("big", "0", &dec(false, 1, 30));
    assert_eq!(
        metrics.get(MetricFamily::Power, "big", Some("0")),
        Some(i64::MAX)
    );
}
