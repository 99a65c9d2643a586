use dxfio::Atom;
use dxfio::Node;
use dxfio::ParseError;

fn doc(lines: &[&str]) -> String {
    let mut s = String::new();
    for l in lines {
        s.push_str(l);
        s.push('\n');
    }
    s
}

#[test]
fn minimal_section_parses() {
    let text = doc(&["0", "SECTION", "2", "HEADER", "0", "ENDSEC", "0", "EOF"]);
    let nodes = Node::parse_str(&text).unwrap();
    assert_eq!(nodes.len(), 1);
    assert_eq!(nodes[0].node_type, "SECTION");
    assert_eq!(nodes[0].atoms.len(), 1);
    assert_eq!(nodes[0].nodes.len(), 0);
    let end = nodes[0].end.as_ref().unwrap();
    assert_eq!(end.node_type, "ENDSEC");
}

#[test]
fn dollar_end_names_do_not_terminate() {
    // a header variable whose name contains END is an ordinary node
    let text = doc(&[
        "0", "SECTION", "2", "HEADER", "9", "$ENDCAPS", "70", "2", "9", "$OTHER", "1", "x",
        "0", "ENDSEC", "0", "EOF",
    ]);
    let nodes = Node::parse_str(&text).unwrap();
    assert_eq!(nodes.len(), 1);
    let section = &nodes[0];
    assert_eq!(section.nodes.len(), 2);
    assert_eq!(section.nodes[0].node_type, "$ENDCAPS");
    assert_eq!(section.nodes[0].code, 9);
    assert_eq!(section.nodes[0].atoms.len(), 1);
    assert_eq!(section.nodes[1].node_type, "$OTHER");
    assert_eq!(section.end.as_ref().unwrap().node_type, "ENDSEC");
}

#[test]
fn flattening_reconstructs_the_atom_slice() {
    // no atom is lost or duplicated: the container's atoms and its
    // descendants' atoms concatenate back to the original sequence
    let text = doc(&[
        "0", "SECTION", "2", "ENTITIES", "0", "LINE", "10", "1.0", "20", "2.0", "0", "CIRCLE",
        "40", "3.5", "0", "ENDSEC", "0", "EOF",
    ]);
    let atoms = Atom::parse_str(&text).unwrap();
    let nodes = Node::parse_atoms(&atoms).unwrap();
    let mut flat: Vec<Atom> = Vec::new();
    for n in &nodes {
        let mut part = n.iter_atoms();
        flat.append(&mut part);
    }
    // everything but the final EOF marker atom
    assert_eq!(flat.len(), atoms.len() - 1);
    assert_eq!(&flat[..], &atoms[..atoms.len() - 1]);
    assert_eq!(atoms.last().unwrap().raw, "EOF");
}

#[test]
fn insert_with_attribute_flag_is_a_container() {
    let text = doc(&[
        "0", "SECTION", "2", "ENTITIES", "0", "INSERT", "2", "B1", "66", "1", "0", "ATTRIB",
        "1", "tag", "0", "SEQEND", "0", "ENDSEC", "0", "EOF",
    ]);
    let nodes = Node::parse_str(&text).unwrap();
    let section = &nodes[0];
    assert_eq!(section.nodes.len(), 1);
    let insert = &section.nodes[0];
    assert_eq!(insert.node_type, "INSERT");
    assert_eq!(insert.nodes.len(), 1);
    assert_eq!(insert.nodes[0].node_type, "ATTRIB");
    assert_eq!(insert.end.as_ref().unwrap().node_type, "SEQEND");
}

#[test]
fn insert_without_attribute_flag_is_a_leaf() {
    let text = doc(&[
        "0", "SECTION", "2", "ENTITIES", "0", "INSERT", "2", "B1", "0", "ENDSEC", "0", "EOF",
    ]);
    let nodes = Node::parse_str(&text).unwrap();
    let section = &nodes[0];
    assert_eq!(section.nodes.len(), 1);
    assert_eq!(section.nodes[0].nodes.len(), 0);
}

#[test]
fn missing_eof_is_a_structure_error() {
    let text = doc(&["0", "SECTION", "2", "HEADER", "0", "ENDSEC"]);
    assert_eq!(Node::parse_str(&text).unwrap_err(), ParseError::StructureError);
}

#[test]
fn empty_input_is_a_structure_error() {
    assert_eq!(Node::parse_str("").unwrap_err(), ParseError::StructureError);
}

#[test]
fn unterminated_section_absorbs_the_eof_marker() {
    // with no terminator, the section's children run to the EOF marker,
    // which stands in as its end record
    let text = doc(&["0", "SECTION", "2", "ENTITIES", "0", "LINE", "10", "1.0", "0", "EOF"]);
    let nodes = Node::parse_str(&text).unwrap();
    assert_eq!(nodes.len(), 1);
    assert_eq!(nodes[0].end.as_ref().unwrap().node_type, "EOF");
}

#[test]
fn deep_copy_equals_original() {
    let text = doc(&["0", "SECTION", "2", "HEADER", "9", "$X", "1", "v", "0", "ENDSEC", "0",
        "EOF"]);
    let nodes = Node::parse_str(&text).unwrap();
    let copy = nodes[0].to_owned();
    assert_eq!(copy, nodes[0]);
}
