use macpifan::adapter::{parse_feedback_rpm, speed_command_text};
use macpifan::config::{parse_decimal_milli, parse_i64_text, resolve_config};
use macpifan::errors::{ConfigurationError, HardwareAccessError};
use macpifan::format::{format_i64, format_u64};
use macpifan::parse::{parse_u64, trim_ascii};
use macpifan::telemetry::{telemetry_line, TelemetryFields};
use macpifan::temperature::aggregate_temperature;

#[test]
fn speed_feedback_parses_trimmed_integer() {
    assert_eq!(parse_feedback_rpm(b" 1234\n"), Ok(1234));
    assert_eq!(parse_feedback_rpm(b"6500"), Ok(6500));
    assert_eq!(parse_feedback_rpm(b"12a4"), Err(HardwareAccessError::Unparsable));
    assert_eq!(parse_feedback_rpm(b""), Err(HardwareAccessError::Unparsable));
    assert_eq!(parse_feedback_rpm(b"  \n"), Err(HardwareAccessError::Unparsable));
    assert_eq!(
        parse_feedback_rpm(b"99999999999999999999999"),
        Err(HardwareAccessError::Unparsable)
    );
}

#[test]
fn command_text_round_trip_of_out_of_band_requests() {
    // Writing 7000 (above the 6200 maximum) transmits the text "6200";
    // writing -50 transmits "1300".
    let (clamped, text) = speed_command_text(7000);
    assert_eq!(clamped, 6200);
    assert_eq!(text, b"6200".to_vec());
    let (clamped, text) = speed_command_text(-50);
    assert_eq!(clamped, 1300);
    assert_eq!(text, b"1300".to_vec());
    let (clamped, text) = speed_command_text(2000);
    assert_eq!(clamped, 2000);
    assert_eq!(text, b"2000".to_vec());
}

#[test]
fn formatting_and_parsing_are_inverse() {
    assert_eq!(format_u64(0), b"0".to_vec());
    assert_eq!(format_u64(6200), b"6200".to_vec());
    assert_eq!(format_i64(-50), b"-50".to_vec());
    assert_eq!(format_i64(i64::MIN), b"-9223372036854775808".to_vec());
    for n in [0u64, 1, 9, 10, 1299, 6200, u64::MAX] {
        assert_eq!(parse_u64(&format_u64(n)), Some(n));
    }
}

#[test]
fn trimming_strips_surrounding_whitespace() {
    assert_eq!(trim_ascii(b" \t45000\r\n"), b"45000".to_vec());
    assert_eq!(trim_ascii(b"45 00"), b"45 00".to_vec());
    assert_eq!(trim_ascii(b"  "), b"".to_vec());
}

#[test]
fn aggregate_substitutes_fallback_for_bad_sensor() {
    // Seven sensors at 45 degrees and one unparsable file: the read must
    // still return, with 100 degrees substituted for the bad sensor:
    // (7*45 + 100) / 8 = 51.
    let mut readings: Vec<Option<Vec<u8>>> = Vec::new();
    for _ in 0..7 {
        readings.push(Some(b"45000\n".to_vec()));
    }
    readings.push(Some(b"oops".to_vec()));
    assert_eq!(aggregate_temperature(&readings), 51);
}

#[test]
fn aggregate_substitutes_fallback_for_unreadable_sensor() {
    let readings: Vec<Option<Vec<u8>>> = vec![Some(b"45000".to_vec()), None];
    // (45 + 100) / 2 = 72.
    assert_eq!(aggregate_temperature(&readings), 72);
}

#[test]
fn aggregate_means_healthy_sensors() {
    let readings: Vec<Option<Vec<u8>>> =
        vec![Some(b"40000".to_vec()), Some(b"50000".to_vec()), Some(b"63999".to_vec())];
    // 40 + 50 + 63 = 153; 153 / 3 = 51.
    assert_eq!(aggregate_temperature(&readings), 51);
}

#[test]
fn telemetry_line_formats_enabled_fields() {
    let all = TelemetryFields { integral: true, temperature: true, speed: true };
    let line = telemetry_line(&all, -5, 44, 1300);
    assert_eq!(line, b"-5, 44 deg, 1300 rpm\n".to_vec());
    let speed_only = TelemetryFields { integral: false, temperature: false, speed: true };
    let line = telemetry_line(&speed_only, -5, 44, 1300);
    assert_eq!(line, b"1300 rpm\n".to_vec());
    let none = TelemetryFields { integral: false, temperature: false, speed: false };
    let line = telemetry_line(&none, 0, 0, 0);
    assert_eq!(line, b"\n".to_vec());
}

#[test]
fn decimal_milli_parser_is_exact() {
    assert_eq!(parse_decimal_milli(b"0.05"), Some(50));
    assert_eq!(parse_decimal_milli(b"400"), Some(400_000));
    assert_eq!(parse_decimal_milli(b"400.0"), Some(400_000));
    assert_eq!(parse_decimal_milli(b"-1.5"), Some(-1500));
    assert_eq!(parse_decimal_milli(b"1.0005"), Some(1000));
    assert_eq!(parse_decimal_milli(b"10000"), Some(10_000_000));
    assert_eq!(parse_decimal_milli(b"2."), None);
    assert_eq!(parse_decimal_milli(b".5"), None);
    assert_eq!(parse_decimal_milli(b""), None);
    assert_eq!(parse_decimal_milli(b"abc"), None);
    assert_eq!(parse_decimal_milli(b"1e4"), None);
}

#[test]
fn integer_parser_is_exact() {
    assert_eq!(parse_i64_text(b"70"), Some(70));
    assert_eq!(parse_i64_text(b"-70"), Some(-70));
    assert_eq!(parse_i64_text(b"9223372036854775807"), Some(i64::MAX));
    assert_eq!(parse_i64_text(b"-9223372036854775808"), Some(i64::MIN));
    assert_eq!(parse_i64_text(b"9223372036854775808"), None);
    assert_eq!(parse_i64_text(b"70.5"), None);
    assert_eq!(parse_i64_text(b""), None);
}

#[test]
fn config_resolves_with_defaults_for_malformed_fields() {
    let initial = b"10000".to_vec();
    let k_i = b"0.05".to_vec();
    let k_p = b"400".to_vec();
    let target = b"70".to_vec();
    let config = resolve_config(Some(&initial), Some(&k_i), Some(&k_p), Some(&target)).unwrap();
    assert_eq!(config.initial_integral, 10_000);
    assert_eq!(config.params.k_i_milli, 50);
    assert_eq!(config.params.k_p_milli, 400_000);
    assert_eq!(config.params.target_degrees, 70);

    let garbage = b"what".to_vec();
    let config =
        resolve_config(Some(&garbage), Some(&garbage), Some(&garbage), Some(&garbage)).unwrap();
    assert_eq!(config.initial_integral, 10_000);
    assert_eq!(config.params.k_i_milli, 50);
    assert_eq!(config.params.k_p_milli, 400_000);
    assert_eq!(config.params.target_degrees, 70);
}

#[test]
fn config_requires_every_line() {
    let line = b"1".to_vec();
    assert!(matches!(
        resolve_config(None, Some(&line), Some(&line), Some(&line)),
        Err(ConfigurationError::MissingField)
    ));
    assert!(matches!(
        resolve_config(Some(&line), Some(&line), Some(&line), None),
        Err(ConfigurationError::MissingField)
    ));
}
