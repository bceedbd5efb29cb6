//! Decoding the wire payload: the five-token format, its failure modes, and
//! the numeric-text grammar.

use brewski::envpayload::{DecodeError, EnvSensorReading};
use brewski::numeric::is_numeric_token;

fn decode(s: &str) -> Result<EnvSensorReading, DecodeError> {
    EnvSensorReading::from_string(String::from(s))
}

#[test]
fn five_token_payload_decodes() {
    let rd = decode("tank1 22.5 101.3 55.0 320").unwrap();
    assert_eq!(rd.sensor.name, "tank1");
    assert_eq!(rd.temperature, "22.5");
    assert_eq!(rd.pressure, "101.3");
    assert_eq!(rd.rel_humid, "55.0");
    assert_eq!(rd.lux, "320");
}

#[test]
fn decoded_fields_parse_to_their_values() {
    let rd = decode("tank1 22.5 101.3 55.0 320").unwrap();
    let temp: f32 = rd.temperature.parse().unwrap();
    let pressure: f32 = rd.pressure.parse().unwrap();
    let humid: f32 = rd.rel_humid.parse().unwrap();
    let lux: f32 = rd.lux.parse().unwrap();
    assert_eq!(temp, 22.5);
    assert_eq!(pressure, 101.3);
    assert_eq!(humid, 55.0);
    assert_eq!(lux, 320.0);
    let temperature_f = temp * 1.8 + 32.0;
    let pressure_bar = pressure / 100.0;
    assert!((temperature_f - 72.5).abs() < 1e-5);
    assert!((pressure_bar - 1.013).abs() < 1e-6);
}

#[test]
fn extra_tokens_are_ignored() {
    let rd = decode("tank1 1 2 3 4 ignored trailing").unwrap();
    assert_eq!(rd.sensor.name, "tank1");
    assert_eq!(rd.lux, "4");
}

#[test]
fn surrounding_whitespace_is_tolerated() {
    let rd = decode("  tank1\t22.5  101.3 55.0 320\n").unwrap();
    assert_eq!(rd.sensor.name, "tank1");
    assert_eq!(rd.temperature, "22.5");
    assert_eq!(rd.lux, "320");
}

#[test]
fn three_tokens_are_a_missing_field() {
    assert_eq!(decode("tank1 22.5 101.3").unwrap_err(), DecodeError::MissingField);
}

#[test]
fn four_tokens_are_a_missing_field() {
    assert_eq!(decode("tank1 22.5 101.3 55.0").unwrap_err(), DecodeError::MissingField);
}

#[test]
fn empty_payload_is_a_missing_field() {
    assert_eq!(decode("").unwrap_err(), DecodeError::MissingField);
    assert_eq!(decode("   ").unwrap_err(), DecodeError::MissingField);
}

#[test]
fn malformed_temperature_is_reported() {
    assert_eq!(decode("tank1 warm 101.3 55.0 320").unwrap_err(), DecodeError::MalformedNumber);
}

#[test]
fn malformed_lux_is_reported() {
    assert_eq!(decode("tank1 22.5 101.3 55.0 bright").unwrap_err(), DecodeError::MalformedNumber);
}

#[test]
fn verdict_ignores_the_sensor_name() {
    // The name token may hold anything, digits or punctuation alike.
    assert!(decode("1.2.3 22.5 101.3 55.0 320").is_ok());
    assert_eq!(
        decode("1.2.3 x 101.3 55.0 320").unwrap_err(),
        DecodeError::MalformedNumber
    );
}

#[test]
fn new_reading_is_zeroed() {
    let rd = EnvSensorReading::new();
    assert_eq!(rd.sensor.name, "");
    assert_eq!(rd.temperature, "0");
    assert_eq!(rd.pressure, "0");
    assert_eq!(rd.rel_humid, "0");
    assert_eq!(rd.lux, "0");
}

#[test]
fn numeric_grammar_accepts_decimal_text() {
    for ok in ["0", "1", "320", "22.5", "-1.5", "+0.25", ".5", "5.", "1e10", "2.5E-3", "-3e+4"] {
        assert!(is_numeric_token(ok), "{ok} should be numeric");
    }
}

#[test]
fn numeric_grammar_rejects_other_text() {
    for bad in ["", " ", "-", "+", ".", "1.2.3", "abc", "inf", "nan", "--1", "1e", "e5", "1x", "1 2"] {
        assert!(!is_numeric_token(bad), "{bad} should not be numeric");
    }
}
