use megatec_ups_control::UpsError;
use megatec_ups_control::UpsStatus;

#[test]
fn seven_fields_parse_into_the_record_in_order() {
    let st = UpsStatus::from_str("230.0 195.0 230.0 50 50.0 13.6 35.0").unwrap();
    assert_eq!(st.input_voltage, "230.0");
    assert_eq!(st.input_fault_voltage, "195.0");
    assert_eq!(st.output_voltage, "230.0");
    assert_eq!(st.output_current, "50");
    assert_eq!(st.input_frequency, "50.0");
    assert_eq!(st.battery_voltage, "13.6");
    assert_eq!(st.temperature, "35.0");
    // each field is a token the standard float parser accepts
    assert_eq!(st.input_voltage.parse::<f64>().unwrap(), 230.0);
    assert_eq!(st.input_fault_voltage.parse::<f64>().unwrap(), 195.0);
    assert_eq!(st.output_voltage.parse::<f64>().unwrap(), 230.0);
    assert_eq!(st.output_current.parse::<f64>().unwrap(), 50.0);
    assert_eq!(st.input_frequency.parse::<f64>().unwrap(), 50.0);
    assert_eq!(st.battery_voltage.parse::<f64>().unwrap(), 13.6);
    assert_eq!(st.temperature.parse::<f64>().unwrap(), 35.0);
}

#[test]
fn six_tokens_fail_with_invalid_response() {
    assert!(matches!(
        UpsStatus::from_str("230.0 195.0 230.0 50 50.0 13.6"),
        Err(UpsError::InvalidResponse)
    ));
}

#[test]
fn a_non_numeric_token_fails_with_invalid_response() {
    assert!(matches!(
        UpsStatus::from_str("230.0 195.0 oops 50 50.0 13.6 35.0"),
        Err(UpsError::InvalidResponse)
    ));
}

#[test]
fn an_empty_line_fails_with_invalid_response() {
    assert!(matches!(
        UpsStatus::from_str(""),
        Err(UpsError::InvalidResponse)
    ));
    assert!(matches!(
        UpsStatus::from_str("   "),
        Err(UpsError::InvalidResponse)
    ));
}

#[test]
fn only_the_first_seven_tokens_count() {
    // an eighth token is ignored, even a non-numeric one
    let st = UpsStatus::from_str("1 2 3 4 5 6 7 garbage").unwrap();
    assert_eq!(st.input_voltage, "1");
    assert_eq!(st.temperature, "7");
}

#[test]
fn runs_of_whitespace_separate_tokens() {
    let st = UpsStatus::from_str("  230.0\t195.0   230.0 50\t\t50.0 13.6 35.0  ").unwrap();
    assert_eq!(st.input_voltage, "230.0");
    assert_eq!(st.temperature, "35.0");
}

#[test]
fn signed_exponent_and_special_tokens_are_numeric() {
    let st = UpsStatus::from_str("+230.0 -1.5 1e3 .5 5. inf NaN").unwrap();
    assert_eq!(st.output_voltage, "1e3");
    assert_eq!(st.output_voltage.parse::<f64>().unwrap(), 1000.0);
    assert_eq!(st.output_current, ".5");
    assert_eq!(st.input_frequency, "5.");
    assert!(st.battery_voltage.parse::<f64>().unwrap().is_infinite());
    assert!(st.temperature.parse::<f64>().unwrap().is_nan());
    let st2 = UpsStatus::from_str("Infinity -INF 2E-4 0 1 2 3").unwrap();
    assert!(st2.input_voltage.parse::<f64>().unwrap().is_infinite());
    assert_eq!(st2.output_voltage.parse::<f64>().unwrap(), 2e-4);
}

#[test]
fn malformed_numbers_fail_with_invalid_response() {
    for bad in [".", "1.2.3", "--1", "1e", "1e+", "1.5e3.2", "+-1", "e5", "infin", "nano"] {
        let line = format!("{bad} 1 2 3 4 5 6");
        assert!(
            matches!(UpsStatus::from_str(&line), Err(UpsError::InvalidResponse)),
            "{bad} should not parse"
        );
        // and the standard parser agrees that the token is malformed
        assert!(bad.parse::<f64>().is_err(), "{bad} unexpectedly parses");
    }
}
