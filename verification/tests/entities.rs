use dxfio::data::color_number_from_i16;
use dxfio::ColorNumber;
use dxfio::Document;
use dxfio::Entity;
use dxfio::LineTypeRef;
use dxfio::MTextNode;
use dxfio::Space;

fn doc(lines: &[&str]) -> String {
    let mut s = String::new();
    for l in lines {
        s.push_str(l);
        s.push('\n');
    }
    s
}

fn entities_doc(body: &[&str]) -> Document {
    let mut lines: Vec<&str> = vec!["0", "SECTION", "2", "ENTITIES"];
    lines.extend_from_slice(body);
    lines.extend_from_slice(&["0", "ENDSEC", "0", "EOF"]);
    Document::parse_str(&doc(&lines)).unwrap()
}

#[test]
fn minimal_line_document_decodes_end_to_end() {
    let d = entities_doc(&[
        "0", "LINE", "5", "1A", "10", "1.0", "20", "2.0", "30", "3.0", "11", "4.0", "21",
        "5.0", "31", "6.0",
    ]);
    assert_eq!(d.entities.len(), 1);
    let e = &d.entities[0];
    assert_eq!(e.header.handle, 26);
    match &e.entity {
        Entity::Line(l) => {
            assert_eq!(l.p1.x.text, "1.0");
            assert_eq!(l.p1.y.text, "2.0");
            assert_eq!(l.p1.z.text, "3.0");
            assert_eq!(l.p2.x.text, "4.0");
            assert_eq!(l.p2.y.text, "5.0");
            assert_eq!(l.p2.z.text, "6.0");
        },
        other => panic!("not a line: {:?}", other),
    }
}

#[test]
fn color_decode_table() {
    assert_eq!(color_number_from_i16(0), Some(ColorNumber::ByBlock));
    assert_eq!(color_number_from_i16(256), Some(ColorNumber::ByLayer));
    assert_eq!(color_number_from_i16(257), Some(ColorNumber::ByEntity));
    assert_eq!(color_number_from_i16(-1), Some(ColorNumber::TurnedOff));
    assert_eq!(color_number_from_i16(5), Some(ColorNumber::Number(5)));
    assert_eq!(color_number_from_i16(258), None);
}

#[test]
fn header_fields_decode_through_an_entity() {
    let d = entities_doc(&[
        "0", "POINT", "8", "Walls", "6", "BYBLOCK", "62", "5", "67", "1", "60", "1", "10",
        "7.5",
    ]);
    let e = &d.entities[0];
    assert_eq!(e.header.layer, "Walls");
    assert_eq!(e.header.line_type, LineTypeRef::ByBlock);
    assert_eq!(e.header.color_number, ColorNumber::Number(5));
    assert_eq!(e.header.space, Space::PaperSpace);
    assert!(!e.header.is_visible);
    match &e.entity {
        Entity::Point(p) => assert_eq!(p.coord.x.text, "7.5"),
        other => panic!("not a point: {:?}", other),
    }
}

#[test]
fn unclaimed_atoms_are_preserved_in_extras() {
    let d = entities_doc(&["0", "LINE", "10", "1.0", "777", "mystery"]);
    let e = &d.entities[0];
    assert_eq!(e.header.extras.len(), 1);
    assert_eq!(e.header.extras[0].code, 777);
    assert_eq!(e.header.extras[0].raw, "mystery");
}

#[test]
fn lwpolyline_resegments_vertices() {
    // the flat stream (10,1.0)(20,1.0)(10,2.0)(20,2.0) holds exactly two
    // vertices: a repeated slot commits the one in progress
    let d = entities_doc(&[
        "0", "LWPOLYLINE", "10", "1.0", "20", "1.0", "10", "2.0", "20", "2.0",
    ]);
    match &d.entities[0].entity {
        Entity::LwPolyline(p) => {
            assert_eq!(p.vertices.len(), 2);
            assert_eq!(p.vertices[0].x.text, "1.0");
            assert_eq!(p.vertices[0].y.text, "1.0");
            assert_eq!(p.vertices[1].x.text, "2.0");
            assert_eq!(p.vertices[1].y.text, "2.0");
        },
        other => panic!("not a polyline: {:?}", other),
    }
}

#[test]
fn lwpolyline_reads_flags_and_widths() {
    let d = entities_doc(&[
        "0", "LWPOLYLINE", "70", "129", "43", "0.5", "10", "1.0", "20", "1.0", "40", "0.1",
        "41", "0.2", "42", "0.3",
    ]);
    match &d.entities[0].entity {
        Entity::LwPolyline(p) => {
            assert!(p.is_closed);
            assert!(p.is_continuous_pattern);
            assert_eq!(p.constant_width.as_ref().unwrap().text, "0.5");
            assert_eq!(p.vertices.len(), 1);
            assert_eq!(p.vertices[0].start_width.as_ref().unwrap().text, "0.1");
            assert_eq!(p.vertices[0].end_width.as_ref().unwrap().text, "0.2");
            assert_eq!(p.vertices[0].bulge.as_ref().unwrap().text, "0.3");
        },
        other => panic!("not a polyline: {:?}", other),
    }
}

#[test]
fn unsupported_entities_keep_their_atoms() {
    let d = entities_doc(&["0", "SOLID", "10", "1.0", "8", "L1"]);
    match &d.entities[0].entity {
        Entity::NotSupported(name, atoms) => {
            assert_eq!(name, "SOLID");
            assert_eq!(atoms.len(), 2);
            assert_eq!(atoms[0].code, 10);
            assert_eq!(atoms[1].raw, "L1");
        },
        other => panic!("not preserved: {:?}", other),
    }
}

#[test]
fn text_entity_substitutes_control_codes() {
    let d = entities_doc(&["0", "TEXT", "1", "abc%%c12mm", "40", "2.5"]);
    match &d.entities[0].entity {
        Entity::Text(t) => {
            assert_eq!(t.text, "abc⌀12mm");
            assert_eq!(t.height.text, "2.5");
        },
        other => panic!("not a text: {:?}", other),
    }
}

#[test]
fn mtext_entity_accumulates_and_decodes_its_value() {
    let d = entities_doc(&["0", "MTEXT", "3", "a{b", "1", "}c", "40", "2.5"]);
    match &d.entities[0].entity {
        Entity::MText(m) => {
            assert_eq!(m.text.raw, "a{b}c");
            assert_eq!(
                m.text.nodes,
                vec![
                    MTextNode::Text("a".to_owned()),
                    MTextNode::Block(vec![MTextNode::Text("b".to_owned())]),
                    MTextNode::Text("c".to_owned()),
                ]
            );
        },
        other => panic!("not an mtext: {:?}", other),
    }
}

#[test]
fn arc_extends_circle_with_angles() {
    let d = entities_doc(&[
        "0", "ARC", "10", "0.0", "20", "0.0", "40", "5.0", "50", "30.0", "51", "60.0",
    ]);
    match &d.entities[0].entity {
        Entity::Arc(a) => {
            assert_eq!(a.circle.radius.text, "5.0");
            assert_eq!(a.start_degree.text, "30.0");
            assert_eq!(a.end_degree.text, "60.0");
        },
        other => panic!("not an arc: {:?}", other),
    }
}

#[test]
fn insert_reads_counts_and_scales() {
    let d = entities_doc(&[
        "0", "INSERT", "2", "CHAIR", "10", "1.0", "41", "2.0", "42", "3.0", "70", "4", "71",
        "5",
    ]);
    match &d.entities[0].entity {
        Entity::Insert(i) => {
            assert_eq!(i.block_name, "CHAIR");
            assert_eq!(i.insertion_point.x.text, "1.0");
            assert_eq!(i.scale_factor.x.text, "2.0");
            assert_eq!(i.scale_factor.y.text, "3.0");
            assert_eq!(i.scale_factor.z.text, "1");
            assert_eq!(i.column_count, 4);
            assert_eq!(i.row_count, 5);
        },
        other => panic!("not an insert: {:?}", other),
    }
}

#[test]
fn lazy_extrusion_vector_defaults_missing_components_to_zero() {
    let d = entities_doc(&["0", "LINE", "220", "1.0"]);
    match &d.entities[0].entity {
        Entity::Line(l) => {
            let v = l.extrusion_direction.as_ref().unwrap();
            assert_eq!(v.x.text, "0");
            assert_eq!(v.y.text, "1.0");
            assert_eq!(v.z.text, "0");
        },
        other => panic!("not a line: {:?}", other),
    }
}
