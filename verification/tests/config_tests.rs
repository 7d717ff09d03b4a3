use mqtt2prom::config::Config;
use mqtt2prom::num::{parse_decimal, scale_trunc, Decimal};

#[test]
fn test_mqtt_server() {
    let config = Config {
        mqtt_host: "localhost".to_string(),
        mqtt_port: 1883,
        mqtt_username: "user".to_string(),
        mqtt_password: "pass".to_string(),
        mqtt_topic: "test/#".to_string(),
        mqtt_client_id: "test".to_string(),
        metrics_port: 8080,
    };

    assert_eq!(config.mqtt_server(), "localhost:1883");
}

fn dec(neg: bool, mantissa: u64, exp: i32) -> Decimal {
    Decimal { neg, mantissa, exp }
}

#[test]
fn test_parse_decimal_forms() {
    assert_eq!(parse_decimal("125.5"), Some(dec(false, 1255, -1)));
    assert_eq!(parse_decimal("-40"), Some(dec(true, 40, 0)));
    assert_eq!(parse_decimal("0.0"), Some(dec(false, 0, -1)));
    assert_eq!(parse_decimal("1e3"), Some(dec(false, 1, 3)));
    assert_eq!(parse_decimal("-1.5e-7"), Some(dec(true, 15, -8)));
    assert_eq!(parse_decimal("18446744073709551615"), Some(dec(false, u64::MAX, 0)));

    assert_eq!(parse_decimal(""), None);
    assert_eq!(parse_decimal("-"), None);
    assert_eq!(parse_decimal("1."), None);
    assert_eq!(parse_decimal("1e"), None);
    assert_eq!(parse_decimal("abc"), None);
    assert_eq!(parse_decimal("1.5x"), None);
    assert_eq!(parse_decimal("18446744073709551616"), None);
}

#[test]
fn test_scale_trunc_rows() {
    // watts, no scaling, truncated toward zero
    assert_eq!(scale_trunc(&dec(false, 1255, -1), 0), 125);
    // deci-volts
    assert_eq!(scale_trunc(&dec(false, 1223, -1), 1), 1223);
    // milli-amps
    assert_eq!(scale_trunc(&dec(false, 1025, -3), 3), 1025);
    // deci-watt-hours
    assert_eq!(scale_trunc(&dec(false, 3949949, -3), 1), 39499);
    // centi-volts
    assert_eq!(scale_trunc(&dec(false, 541, -2), 2), 541);
    // toward zero for negatives
    assert_eq!(scale_trunc(&dec(true, 1255, -1), 0), -125);
    // saturation at the gauge bounds
    assert_eq!(scale_trunc(&dec(false, 1, 30), 0), i64::MAX);
    assert_eq!(scale_trunc(&dec(true, 1, 30), 0), i64::MIN);
    // far below one truncates to zero
    assert_eq!(scale_trunc(&dec(false, 5, -30), 3), 0);
}
