use dxfio::Document;
use dxfio::TableRecord;

fn doc(lines: &[&str]) -> String {
    let mut s = String::new();
    for l in lines {
        s.push_str(l);
        s.push('\n');
    }
    s
}

#[test]
fn layer_entries_decode() {
    let text = doc(&[
        "0", "SECTION", "2", "TABLES", "0", "TABLE", "5", "2F", "0", "LAYER", "5", "10", "2",
        "Walls", "70", "1", "62", "-3", "6", "DASHED", "290", "0", "370", "25", "0", "ENDTAB",
        "0", "ENDSEC", "0", "EOF",
    ]);
    let d = Document::parse_str(&text).unwrap();
    assert_eq!(d.tables.len(), 1);
    let table = &d.tables[0];
    assert_eq!(table.handle, 0x2F);
    assert_eq!(table.entries.len(), 1);
    let entry = &table.entries[0];
    assert_eq!(entry.handle, 0x10);
    assert_eq!(entry.name, "Walls");
    match &entry.record {
        TableRecord::Layer(l) => {
            assert_eq!(l.flags, 1);
            // a negative color number means the layer is off
            assert_eq!(l.color_number, None);
            assert_eq!(l.line_type.as_ref().unwrap(), "DASHED");
            assert!(!l.is_plotted);
            assert_eq!(l.line_weight, Some(25));
        },
        other => panic!("not a layer: {:?}", other),
    }
}

#[test]
fn line_type_entries_collect_pattern_lengths() {
    let text = doc(&[
        "0", "SECTION", "2", "TABLES", "0", "TABLE", "0", "LTYPE", "2", "DASHED", "3",
        "dash dot", "40", "1.0", "49", "0.5", "49", "-0.25", "0", "ENDTAB", "0", "ENDSEC", "0",
        "EOF",
    ]);
    let d = Document::parse_str(&text).unwrap();
    match &d.tables[0].entries[0].record {
        TableRecord::LineType(lt) => {
            assert_eq!(lt.description, "dash dot");
            assert_eq!(lt.total_pattern_length.text, "1.0");
            assert_eq!(lt.pattern_lengths.len(), 2);
            assert_eq!(lt.pattern_lengths[0].text, "0.5");
            assert_eq!(lt.pattern_lengths[1].text, "-0.25");
            assert!(!lt.is_continuous());
        },
        other => panic!("not a line type: {:?}", other),
    }
}

#[test]
fn dim_style_reads_its_handle_from_code_105() {
    let text = doc(&[
        "0", "SECTION", "2", "TABLES", "0", "TABLE", "0", "DIMSTYLE", "105", "4C", "2", "STD",
        "3", "suffix", "40", "1.5", "140", "0.18", "71", "1", "75", "1", "0", "ENDTAB", "0",
        "ENDSEC", "0", "EOF",
    ]);
    let d = Document::parse_str(&text).unwrap();
    let entry = &d.tables[0].entries[0];
    assert_eq!(entry.handle, 0x4C);
    assert_eq!(entry.name, "STD");
    match &entry.record {
        TableRecord::DimStyle(ds) => {
            assert_eq!(ds.general_dimensioning_suffix, "suffix");
            assert_eq!(ds.scale_factor.text, "1.5");
            assert_eq!(ds.text_height.text, "0.18");
            assert_eq!(ds.tolerance, 1);
            assert!(ds.extension_line1_suppressed);
            assert!(!ds.extension_line2_suppressed);
        },
        other => panic!("not a dim style: {:?}", other),
    }
}

#[test]
fn unknown_table_entries_are_preserved_whole() {
    let text = doc(&[
        "0", "SECTION", "2", "TABLES", "0", "TABLE", "0", "VPORT", "2", "V1", "0", "ENDTAB",
        "0", "ENDSEC", "0", "EOF",
    ]);
    let d = Document::parse_str(&text).unwrap();
    match &d.tables[0].entries[0].record {
        TableRecord::NotSupported(n) => {
            assert_eq!(n.node_type, "VPORT");
            assert_eq!(n.atoms.len(), 1);
        },
        other => panic!("not preserved: {:?}", other),
    }
}

#[test]
fn blocks_decode_with_their_entities() {
    let text = doc(&[
        "0", "SECTION", "2", "BLOCKS", "0", "BLOCK", "8", "0", "2", "CHAIR", "70", "2", "10",
        "1.0", "20", "2.0", "0", "LINE", "10", "0.0", "0", "ENDBLK", "0", "ENDSEC", "0", "EOF",
    ]);
    let d = Document::parse_str(&text).unwrap();
    assert_eq!(d.blocks.len(), 1);
    let b = &d.blocks[0];
    assert_eq!(b.block_name, "CHAIR");
    assert!(b.block_flags.has_non_constant_attribute_definitions);
    assert_eq!(b.base_point.x.text, "1.0");
    assert_eq!(b.entities.len(), 1);
}

#[test]
fn header_section_keeps_raw_variable_nodes() {
    let text = doc(&[
        "0", "SECTION", "2", "HEADER", "9", "$ACADVER", "1", "AC1027", "0", "ENDSEC", "0",
        "EOF",
    ]);
    let d = Document::parse_str(&text).unwrap();
    assert_eq!(d.headers.len(), 1);
    assert_eq!(d.headers[0].node_type, "$ACADVER");
    assert_eq!(d.headers[0].atoms[0].raw, "AC1027");
}

#[test]
fn classes_and_unknown_sections_are_passed_over() {
    let text = doc(&[
        "0", "SECTION", "2", "CLASSES", "0", "ENDSEC", "0", "SECTION", "2", "WHOKNOWS", "0",
        "ENDSEC", "0", "EOF",
    ]);
    let d = Document::parse_str(&text).unwrap();
    assert_eq!(d.headers.len(), 0);
    assert_eq!(d.tables.len(), 0);
    assert_eq!(d.blocks.len(), 0);
    assert_eq!(d.entities.len(), 0);
}
