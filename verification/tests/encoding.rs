use dxfio::bytes_to_string;
use dxfio::Document;
use dxfio::Entity;

#[test]
fn utf8_bytes_decode_as_utf8() {
    let s = bytes_to_string("0\nEOF\n".as_bytes()).unwrap();
    assert_eq!(s, "0\nEOF\n");
    let s = bytes_to_string("héllo ⌀".as_bytes()).unwrap();
    assert_eq!(s, "héllo ⌀");
}

#[test]
fn shift_jis_bytes_decode_when_not_utf8() {
    // "あ" in the first legacy encoding; not valid UTF-8
    let s = bytes_to_string(&[0x82, 0xA0]).unwrap();
    assert_eq!(s, "あ");
}

#[test]
fn undecodable_bytes_are_an_encoding_error() {
    // a lone lead byte at end of input is malformed in every supported
    // encoding
    assert!(bytes_to_string(&[0x82]).is_err());
}

#[test]
fn whole_pipeline_runs_from_bytes() {
    let text = "0\nSECTION\n2\nENTITIES\n0\nTEXT\n1\nhello\n0\nENDSEC\n0\nEOF\n";
    let d = Document::parse_bytes(text.as_bytes()).unwrap();
    assert_eq!(d.entities.len(), 1);
    match &d.entities[0].entity {
        Entity::Text(t) => assert_eq!(t.text, "hello"),
        other => panic!("not a text: {:?}", other),
    }
}

#[test]
fn legacy_encoded_document_decodes_end_to_end() {
    // the same document with a text value in the first legacy encoding:
    // "あ" is 0x82 0xA0
    let mut bytes: Vec<u8> = Vec::new();
    bytes.extend_from_slice(b"0\nSECTION\n2\nENTITIES\n0\nTEXT\n1\n");
    bytes.extend_from_slice(&[0x82, 0xA0]);
    bytes.extend_from_slice(b"\n0\nENDSEC\n0\nEOF\n");
    let d = Document::parse_bytes(&bytes).unwrap();
    match &d.entities[0].entity {
        Entity::Text(t) => assert_eq!(t.text, "あ"),
        other => panic!("not a text: {:?}", other),
    }
}

#[test]
fn euc_jp_is_tried_after_shift_jis() {
    // malformed in UTF-8 and in SHIFT_JIS (0xE0 expects a trail byte at
    // most 0xFC), but a well-formed EUC-JP character
    let bytes = [0xE0u8, 0xFEu8];
    let s = bytes_to_string(&bytes).unwrap();
    let (expected, _, malformed) = encoding_rs::EUC_JP.decode(&bytes);
    assert!(!malformed);
    assert_eq!(s, expected);
    let (_, _, sjis_malformed) = encoding_rs::SHIFT_JIS.decode(&bytes);
    assert!(sjis_malformed);
}
