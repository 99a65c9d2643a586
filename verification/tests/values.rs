use dxfio::Atom;
use dxfio::Float64;
use dxfio::Value;

#[test]
fn handles_read_from_hex_strings_and_handle_values() {
    assert_eq!(Value::String("1A".to_string()).as_handle(), Some(26));
    assert_eq!(Value::String("xyz".to_string()).as_handle(), None);
    assert_eq!(Value::Handle(7).as_handle(), Some(7));
    assert_eq!(Value::I16(26).as_handle(), None);
    let mut dst: u32 = 99;
    assert!(Value::String("ff".to_string()).as_handle_to(&mut dst));
    assert_eq!(dst, 255);
    assert!(!Value::String("zz".to_string()).as_handle_to(&mut dst));
    assert_eq!(dst, 255);
}

#[test]
fn owned_copies_equal_their_sources() {
    let v = Value::F64(Float64 { text: "2.5".to_string() });
    assert_eq!(v.clone().into_owned(), v);
    let a = Atom { code: 10, raw: "2.5".to_string(), value: v };
    assert_eq!(a.to_owned(), a);
}

#[test]
fn float_text_parses_to_the_binary_value_downstream() {
    // a consumer parses the carried text with std; the tokenizer accepts
    // exactly what std accepts
    let a = Atom::parse_line_pair("10", "2.5e1").unwrap();
    match a.value {
        Value::F64(f) => assert_eq!(f.text.parse::<f64>().unwrap(), 25.0),
        other => panic!("not a float: {:?}", other),
    }
}
