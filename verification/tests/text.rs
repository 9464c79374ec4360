use lux_rs::binary64::{binary64_of_u32, clamp_bits};
use lux_rs::text::{check_float_literal, split_chars, trim_chars};
use lux_rs::{parse_observer_table, LuxError};

fn chars(s: &str) -> Vec<char> {
    s.chars().collect()
}

#[test]
fn float_literals_follow_the_parse_syntax() {
    let accepted = [
        "0", "1.", ".5", "+3", "-2.25", "1e5", "1E-5", "2.5e+10", "inf", "-Infinity", "NaN",
        "+nan", "0001", "683.002", "1.5E3",
    ];
    let refused = [
        "", ".", "+", "-", "e5", "1e", "1e+", "1.2.3", "1,5", " 1", "1 ", "infinit", "nan1",
        "--1", "1e5.0", "0x10", "1_000",
    ];
    for text in accepted {
        assert!(check_float_literal(&chars(text)), "{text}");
        assert!(text.parse::<f64>().is_ok(), "{text}");
    }
    for text in refused {
        assert!(!check_float_literal(&chars(text)), "{text}");
        assert!(text.parse::<f64>().is_err(), "{text}");
    }
}

#[test]
fn trimming_removes_unicode_white_space() {
    for text in ["  a b ", "\t\n\u{a0}x\u{3000}", "", "   ", "abc", "\u{2009}1,2\r"] {
        let trimmed: String = trim_chars(&chars(text)).into_iter().collect();
        assert_eq!(trimmed, text.trim());
        let again: String = trim_chars(&chars(&trimmed)).into_iter().collect();
        assert_eq!(again, trimmed);
    }
}

#[test]
fn splitting_keeps_empty_pieces() {
    for text in ["a,b,,c,", "", ",", "abc", ",,x"] {
        let pieces: Vec<String> =
            split_chars(&chars(text), ',').into_iter().map(|p| p.into_iter().collect()).collect();
        let expected: Vec<String> = text.split(',').map(|p| p.to_string()).collect();
        assert_eq!(pieces, expected);
    }
}

#[test]
fn integers_convert_exactly() {
    for n in [0u32, 1, 2, 3, 255, 256, 360, 555, 830, 1023, 65_537, 16_777_217, u32::MAX] {
        assert_eq!(binary64_of_u32(n), (n as f64).to_bits());
    }
}

#[test]
fn observer_tables_are_read_line_by_line() {
    let rows = parse_observer_table("360,0.1,0.2,0.3\n\n  361 , 1e-3, 2 ,3.5, extra\r\n").unwrap();
    assert_eq!(rows.len(), 2);
    assert_eq!(rows[0].wavelength, "360");
    assert_eq!(rows[0].z_bar, "0.3");
    assert_eq!(rows[1].wavelength, "361");
    assert_eq!(rows[1].x_bar, "1e-3");
    assert_eq!(rows[1].y_bar, "2");
    assert_eq!(rows[1].z_bar, "3.5");
}

#[test]
fn observer_table_errors_name_the_field() {
    assert_eq!(parse_observer_table("").unwrap_err(), LuxError::EmptyInput);
    assert_eq!(parse_observer_table(" \n\t\n").unwrap_err(), LuxError::EmptyInput);
    assert_eq!(
        parse_observer_table("abc,1,2,3").unwrap_err(),
        LuxError::ParseError("invalid wavelength")
    );
    assert_eq!(parse_observer_table("360").unwrap_err(), LuxError::ParseError("missing x_bar"));
    assert_eq!(
        parse_observer_table("360,x,2,3").unwrap_err(),
        LuxError::ParseError("invalid x_bar")
    );
    assert_eq!(parse_observer_table("360,1").unwrap_err(), LuxError::ParseError("missing y_bar"));
    assert_eq!(
        parse_observer_table("360,1,,3").unwrap_err(),
        LuxError::ParseError("invalid y_bar")
    );
    assert_eq!(parse_observer_table("360,1,2").unwrap_err(), LuxError::ParseError("missing z_bar"));
    assert_eq!(
        parse_observer_table("360,1,2,3\n361,1,2,z").unwrap_err(),
        LuxError::ParseError("invalid z_bar")
    );
}

#[test]
fn error_messages() {
    assert_eq!(LuxError::EmptyInput.message(), "input cannot be empty");
    assert_eq!(
        LuxError::MismatchedLengths { wavelengths: 0, values: 1207 }.message(),
        "wavelength/value length mismatch: wavelengths=0, values=1207"
    );
    assert_eq!(
        LuxError::NonMonotonicWavelengths.message(),
        "wavelengths must be strictly increasing"
    );
    assert_eq!(LuxError::InvalidGridSpec.message(), "invalid wavelength grid specification");
    assert_eq!(LuxError::UnsupportedObserver("cie2006").message(), "unsupported observer: cie2006");
    assert_eq!(LuxError::MissingObserver.message(), "an observer is required for this operation");
    assert_eq!(LuxError::ParseError("missing x_bar").message(), "parse error: missing x_bar");
    assert_eq!(LuxError::InvalidInput("bad").message(), "invalid input: bad");
}

#[test]
fn clamping_follows_f64_clamp() {
    for value in [-1.0, -0.0, 0.0, 0.25, 1.0, 2.0, f64::INFINITY, f64::NEG_INFINITY, f64::NAN] {
        let clamped = f64::from_bits(clamp_bits(value.to_bits(), 0.0f64.to_bits(), 1.0f64.to_bits()));
        let expected = value.clamp(0.0, 1.0);
        assert_eq!(clamped.to_bits(), expected.to_bits(), "{value}");
    }
}
