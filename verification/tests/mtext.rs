use dxfio::mtext::parse_control_codes;
use dxfio::mtext::parse_to_nodes;
use dxfio::Float64;
use dxfio::MTextCommand;
use dxfio::MTextNode;
use dxfio::MTextStackType;

fn fl(s: &str) -> Float64 {
    Float64 { text: s.to_string() }
}

#[test]
fn test_parse_control_codes() {
    assert_eq!(parse_control_codes("abc%%c12mm"), "abc⌀12mm");
    assert_eq!(parse_control_codes("abc%%c12%%p0.1mm"), "abc⌀12±0.1mm");
}

#[test]
fn test_parse_to_nodes() {
    assert_eq!(parse_to_nodes("abc"), &[MTextNode::Text("abc".to_owned())]);
    assert_eq!(
        parse_to_nodes("a\\\\bc"),
        &[MTextNode::Text("a\\bc".to_owned())]
    );
    assert_eq!(
        parse_to_nodes("a\\{b\\}c"),
        &[MTextNode::Text("a{b}c".to_owned())]
    );
    assert_eq!(
        parse_to_nodes("\\W12.34;abc"),
        &[
            MTextNode::Command(MTextCommand::W(fl("12.34"))),
            MTextNode::Text("abc".to_owned())
        ]
    );
    assert_eq!(
        parse_to_nodes("a{b}c"),
        &[
            MTextNode::Text("a".to_owned()),
            MTextNode::Block(vec![MTextNode::Text("b".to_owned())]),
            MTextNode::Text("c".to_owned())
        ]
    );
    assert_eq!(
        parse_to_nodes("{\\H1.8;abc}"),
        &[MTextNode::Block(vec![
            MTextNode::Command(MTextCommand::H(fl("1.8"))),
            MTextNode::Text("abc".to_owned())
        ]),]
    );
}

#[test]
fn control_codes_pass_plain_text_through() {
    assert_eq!(parse_control_codes("no escapes here"), "no escapes here");
    assert_eq!(parse_control_codes(""), "");
}

#[test]
fn control_codes_decode_numeric_escapes() {
    // a three-digit decimal selects a Unicode scalar
    assert_eq!(parse_control_codes("a%%065b"), "aAb");
    // fewer than three digits fall through to the single-character rules
    assert_eq!(parse_control_codes("a%%65"), "a5");
}

#[test]
fn control_codes_toggle_overline_underline_strike() {
    assert_eq!(parse_control_codes("%%oa%%o"), "\\oa\\O");
    assert_eq!(parse_control_codes("%%ua%%u"), "\\la\\L");
    assert_eq!(parse_control_codes("%%ka%%k"), "\\ka\\K");
    assert_eq!(parse_control_codes("%%d and %%%"), "° and %");
}

#[test]
fn control_codes_drop_unknown_and_trailing_markers() {
    assert_eq!(parse_control_codes("a%%zb"), "ab");
    assert_eq!(parse_control_codes("ab%%"), "ab");
}

#[test]
fn stacked_fractions_parse_with_each_separator() {
    assert_eq!(
        parse_to_nodes("\\S1/2;x"),
        &[
            MTextNode::Stacked(
                vec![MTextNode::Text("1".to_owned())],
                vec![MTextNode::Text("2".to_owned())],
                MTextStackType::Slash
            ),
            MTextNode::Text("x".to_owned())
        ]
    );
    assert_eq!(
        parse_to_nodes("\\S1#2;"),
        &[MTextNode::Stacked(
            vec![MTextNode::Text("1".to_owned())],
            vec![MTextNode::Text("2".to_owned())],
            MTextStackType::Number
        )]
    );
    assert_eq!(
        parse_to_nodes("\\S1^2;"),
        &[MTextNode::Stacked(
            vec![MTextNode::Text("1".to_owned())],
            vec![MTextNode::Text("2".to_owned())],
            MTextStackType::Hat
        )]
    );
}

#[test]
fn commands_with_arguments_parse_to_their_kinds() {
    assert_eq!(
        parse_to_nodes("\\C3;x"),
        &[
            MTextNode::Command(MTextCommand::C(3)),
            MTextNode::Text("x".to_owned())
        ]
    );
    assert_eq!(
        parse_to_nodes("\\H2.5x;y"),
        &[
            MTextNode::Command(MTextCommand::Hx(fl("2.5"))),
            MTextNode::Text("y".to_owned())
        ]
    );
    assert_eq!(
        parse_to_nodes("\\Farial;z"),
        &[
            MTextNode::Command(MTextCommand::F("arial".to_owned())),
            MTextNode::Text("z".to_owned())
        ]
    );
    assert_eq!(
        parse_to_nodes("\\Px"),
        &[
            MTextNode::Command(MTextCommand::P),
            MTextNode::Text("x".to_owned())
        ]
    );
    // a malformed argument consumes through the semicolon, yields nothing
    assert_eq!(parse_to_nodes("\\Hoops;x"), &[MTextNode::Text("x".to_owned())]);
    // an unknown letter is dropped
    assert_eq!(parse_to_nodes("\\zx"), &[MTextNode::Text("x".to_owned())]);
}
