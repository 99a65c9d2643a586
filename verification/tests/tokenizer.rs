use dxfio::Atom;
use dxfio::Float64;
use dxfio::ParseError;
use dxfio::Value;

#[test]
fn pair_parses_typed_float() {
    let a = Atom::parse_line_pair(" 10 ", " 1.5 ").unwrap();
    assert_eq!(a.code, 10);
    assert_eq!(a.raw, "1.5");
    assert_eq!(a.value, Value::F64(Float64 { text: "1.5".to_string() }));
}

#[test]
fn pair_parses_each_numeric_kind() {
    let a = Atom::parse_line_pair("70", "42").unwrap();
    assert_eq!(a.value, Value::I16(42));
    let a = Atom::parse_line_pair("90", "-70000").unwrap();
    assert_eq!(a.value, Value::I32(-70000));
    let a = Atom::parse_line_pair("160", "8589934592").unwrap();
    assert_eq!(a.value, Value::I64(8589934592));
    let a = Atom::parse_line_pair("290", "0").unwrap();
    assert_eq!(a.value, Value::Bool(false));
    let a = Atom::parse_line_pair("290", "00").unwrap();
    assert_eq!(a.value, Value::Bool(true));
    let a = Atom::parse_line_pair("105", "1aF").unwrap();
    assert_eq!(a.value, Value::Handle(0x1AF));
    let a = Atom::parse_line_pair("310", "0AfF").unwrap();
    assert_eq!(a.value, Value::Bytes(vec![0x0A, 0xFF]));
    let a = Atom::parse_line_pair("999", "anything at all").unwrap();
    assert_eq!(a.value, Value::String("anything at all".to_string()));
}

#[test]
fn pair_rejects_bad_code_line() {
    match Atom::parse_line_pair("notanumber", "x") {
        Err(ParseError::ParseIntError(l)) => assert_eq!(l, "notanumber"),
        other => panic!("unexpected: {:?}", other),
    }
}

#[test]
fn pair_rejects_bad_float_value() {
    match Atom::parse_line_pair("10", "oops") {
        Err(ParseError::ParseFloatError(l)) => assert_eq!(l, "oops"),
        other => panic!("unexpected: {:?}", other),
    }
}

#[test]
fn pair_rejects_bad_integer_and_blob_values() {
    assert!(matches!(
        Atom::parse_line_pair("70", "4x"),
        Err(ParseError::ParseIntError(_))
    ));
    assert!(matches!(
        Atom::parse_line_pair("70", "40000"),
        Err(ParseError::ParseIntError(_))
    ));
    assert!(matches!(
        Atom::parse_line_pair("105", "xyz"),
        Err(ParseError::ParseIntError(_))
    ));
    // an odd number of hex digits is not a byte blob
    assert!(matches!(
        Atom::parse_line_pair("310", "0AF"),
        Err(ParseError::ParseIntError(_))
    ));
}

#[test]
fn float_grammar_matches_std() {
    for good in ["1", "1.", ".5", "1.25", "1e5", "1E-5", "+3.e2", "-0.5e+10", "inf", "Infinity", "NaN", "-inf"] {
        let r = Atom::parse_line_pair("10", good);
        assert!(r.is_ok(), "{} should parse", good);
        assert!(good.parse::<f64>().is_ok(), "std disagrees on {}", good);
    }
    for bad in ["", ".", "e5", "1e", "1e+", "1.2.3", "1x", "in", "infx", "--1"] {
        let r = Atom::parse_line_pair("10", bad);
        assert!(r.is_err(), "{} should be rejected", bad);
        assert!(bad.parse::<f64>().is_err(), "std disagrees on {}", bad);
    }
}

#[test]
fn lines_tokenize_in_pairs() {
    let atoms = Atom::parse_lines(&["0", "SECTION", " 2 ", "HEADER"]).unwrap();
    assert_eq!(atoms.len(), 2);
    assert_eq!(atoms[0].code, 0);
    assert_eq!(atoms[0].raw, "SECTION");
    assert_eq!(atoms[1].code, 2);
    assert_eq!(atoms[1].value, Value::String("HEADER".to_string()));
}

#[test]
fn dangling_code_line_is_truncated_pair() {
    match Atom::parse_lines(&["0", "SECTION", "2"]) {
        Err(ParseError::TruncatedPair(l)) => assert_eq!(l, "2"),
        other => panic!("unexpected: {:?}", other),
    }
}

#[test]
fn tokenize_then_emit_reproduces_canonical_lines() {
    // the round trip: re-emitting gives the lines back, code lines in
    // canonical decimal and value lines trimmed
    let text = "  0  \nSECTION\n 02 \n  HEADER  \n-1\nvalue\n";
    let atoms = Atom::parse_str(text).unwrap();
    let lines = Atom::emit_lines(&atoms);
    assert_eq!(lines, vec!["0", "SECTION", "2", "HEADER", "-1", "value"]);
    // and tokenizing the emitted lines gives the same atoms back
    let again = Atom::parse_str(&lines.join("\n")).unwrap();
    assert_eq!(atoms, again);
}

#[test]
fn crlf_lines_tokenize_like_lf_lines() {
    let a = Atom::parse_str("0\r\nEOF\r\n").unwrap();
    let b = Atom::parse_str("0\nEOF\n").unwrap();
    assert_eq!(a, b);
}
