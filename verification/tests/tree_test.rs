use wsdf::address::Address;
use wsdf::dissector::{call_result, process_packet, EthertypeData, TransformError, Tree};
use wsdf::packet::PacketInfo;
use wsdf::protocol::{ExpertFieldHandle, FieldBuilder, Protocol, ProtocolBuilder, RegistrationResult};
use wsdf::tvb::Tvb;
use wsdf::types::{
    Column, DissectorHandleError, Encoding, ExpertError, ExpertGroup, ExpertSeverity, FieldDisplay,
    FieldType, TreeError, TvbError,
};

fn no_address() -> Address {
    Address::new(0, 0, None)
}

fn pinfo() -> PacketInfo {
    PacketInfo::new(no_address(), no_address(), no_address(), no_address(), Some(false))
}

fn field(id: &str, t: FieldType, d: FieldDisplay) -> wsdf::protocol::Field {
    FieldBuilder::new(id, id, &format!("wsdf.{}", id)).field_type(t).display(d).build().unwrap()
}

/// The protocol of the builder example: a header with two fields, a payload with a flag,
/// a size and raw bytes.
fn builder_protocol() -> Protocol<()> {
    let mut p = ProtocolBuilder::new("WSDF Example", "wsdf_example", "wsdf")
        .field(field("header_field", FieldType::Bytes, FieldDisplay::BaseNone))
        .field(field("field1", FieldType::Uint8, FieldDisplay::BaseDec))
        .field(field("field2", FieldType::Uint16, FieldDisplay::BaseHex))
        .field(field("payload_field", FieldType::Bytes, FieldDisplay::BaseNone))
        .field(field("comp_flag", FieldType::Uint8, FieldDisplay::BaseHex))
        .field(field("orig_size", FieldType::Uint16, FieldDisplay::BaseDec))
        .field(field("raw", FieldType::Bytes, FieldDisplay::SepColon))
        .ett("header_field_ett", "Header")
        .expert_info("malformed", ExpertGroup::Malformed, ExpertSeverity::Error, "Malformed packet")
        .dissector(())
        .build()
        .unwrap();
    p.set_proto_handle(5);
    p.register(&RegistrationResult {
        field_handles: (20..27).collect(),
        ett_handles: vec![1, 2],
        expert_handles: vec![ExpertFieldHandle { ei: 9, hf: 10 }],
    });
    p
}

fn started<'a>(r: (Tree<'a, ()>, Result<Tvb, TreeError>)) -> (Tree<'a, ()>, Tvb) {
    let (tree, tvb) = r;
    (tree, tvb.unwrap())
}

fn dissect_builder(tree: &mut Tree<()>, tvb: Tvb) -> Result<i32, TvbError> {
    let header = tvb.range(0, 3)?;
    let item = tree.add("header_field", header).unwrap();
    tree.enter(&item).unwrap();
    let f1 = tvb.range(0, 1)?;
    assert_eq!(f1.uint8()?, 1);
    tree.add_item("field1", f1).unwrap();
    let f2 = tvb.range(1, 2)?;
    assert_eq!(f2.uint16(Encoding::BigEndian)?, 2);
    tree.add_item_with_encoding("field2", f2, Encoding::BigEndian).unwrap();
    tree.leave().unwrap();
    let payload = tree.add("payload_field", tvb.range(3, -1)?).unwrap();
    tree.enter(&payload).unwrap();
    let flag = tvb.range(3, 1)?;
    assert_eq!(flag.uint8()? & 0x80, 0);
    tree.add_item("comp_flag", flag).unwrap();
    let size = tvb.range(4, 2)?;
    assert_eq!(size.uint16(Encoding::BigEndian)?, 10);
    tree.add_item_with_encoding("orig_size", size, Encoding::BigEndian).unwrap();
    tree.leave().unwrap();
    let raw = tvb.range(6, 4)?;
    assert_eq!(raw.bytes(), vec![0x11, 0x22, 0x33, 0x44]);
    tree.add_item("raw", raw).unwrap();
    Ok(tvb.reported_length())
}

#[test]
fn dissection_of_an_uncompressed_packet() {
    let p = builder_protocol();
    let tvb = Tvb::new(vec![0x01, 0x00, 0x02, 0x00, 0x00, 0x0a, 0x11, 0x22, 0x33, 0x44], 10);
    let (mut tree, tvb) = started(Tree::new(&p, pinfo(), 7, tvb, 0));
    assert_eq!(dissect_builder(&mut tree, tvb).unwrap(), 10);
    let nodes = tree.nodes();
    let summary: Vec<(i32, i32, i32, Option<usize>, Option<i32>)> =
        nodes.iter().map(|n| (n.field, n.offset, n.length, n.parent, n.ett)).collect();
    assert_eq!(
        summary,
        vec![
            (5, 0, -1, None, Some(1)),
            (20, 0, 3, Some(0), Some(2)),
            (21, 0, 1, Some(1), None),
            (22, 1, 2, Some(1), None),
            (23, 3, 7, Some(0), Some(1)),
            (24, 3, 1, Some(4), None),
            (25, 4, 2, Some(4), None),
            (26, 6, 4, Some(0), None),
        ]
    );
    assert_eq!(nodes[3].encoding, 0);
    assert!(nodes.iter().all(|n| n.tvb.reported_length() == 10));
}

#[test]
fn process_packet_returns_what_the_dissector_consumed() {
    let p = builder_protocol();
    let tvb = Tvb::new(vec![0x01, 0x00, 0x02, 0x00, 0x00, 0x0a, 0x11, 0x22, 0x33, 0x44], 10);
    assert_eq!(process_packet(&p, pinfo(), 7, tvb, dissect_builder), 10);
    let failing = |_: &mut Tree<()>, tvb: Tvb| -> Result<i32, TvbError> {
        tvb.range(0, 50)?;
        Ok(1)
    };
    let tvb = Tvb::new(vec![1, 2, 3], 3);
    assert_eq!(process_packet(&p, pinfo(), 7, tvb, failing), 0);
    let unregistered = ProtocolBuilder::new("U", "u", "u").dissector(()).build().unwrap();
    let tvb = Tvb::new(vec![1, 2, 3], 3);
    assert_eq!(process_packet(&unregistered, pinfo(), 7, tvb, dissect_builder), 0);
}

#[test]
fn tree_needs_the_root_ett() {
    let unregistered = ProtocolBuilder::new("U", "u", "u").dissector(()).build().unwrap();
    let (tree, res) = Tree::new(&unregistered, pinfo(), 7, Tvb::new(vec![1, 2], 2), 0);
    match res {
        Err(TreeError::EttNotFound(m)) => assert_eq!(m, "Ett '_root' not found"),
        _ => panic!("expected EttNotFound"),
    }
    // The protocol's item was added all the same, without a subtree.
    let nodes = tree.nodes();
    assert_eq!(nodes.len(), 1);
    assert_eq!((nodes[0].field, nodes[0].offset, nodes[0].length, nodes[0].ett), (-1, 0, -1, None));
}

#[test]
fn adding_items_reports_errors() {
    let p = builder_protocol();
    let tvb = Tvb::new(vec![1, 2, 3, 4], 8);
    let (mut tree, tvb) = started(Tree::new(&p, pinfo(), 7, tvb, 0));
    match tree.add_item("nope", tvb.range(0, 1).unwrap()) {
        Err(TreeError::AddItemFailed(m)) => assert_eq!(m, "Field 'nope' not found"),
        _ => panic!("expected AddItemFailed"),
    }
    match tree.add("field1", tvb.range(2, 4).unwrap()) {
        Err(TreeError::AddItemFailed(m)) => assert_eq!(m, "TvbRange extends beyond packet data"),
        _ => panic!("expected AddItemFailed"),
    }
    assert_eq!(tree.nodes().len(), 1);
    // A subtree without its own ett uses the root ett.
    let item = tree.add("field1", tvb.range(0, 1).unwrap()).unwrap();
    assert_eq!(tree.nodes()[1].ett, Some(1));
    assert!(tree.enter(&item).is_ok());
    assert!(tree.leave().is_ok());
    match tree.leave() {
        Err(TreeError::InvalidSubtreeOperation(m)) => assert_eq!(m, "The root has no parent"),
        _ => panic!("expected InvalidSubtreeOperation"),
    }
    let plain = tree.add_item("field2", tvb.range(0, 2).unwrap()).unwrap();
    match tree.enter(&plain) {
        Err(TreeError::InvalidSubtreeOperation(m)) => assert_eq!(m, "Item is not a subtree"),
        _ => panic!("expected InvalidSubtreeOperation"),
    }
}

#[test]
fn texts_lengths_and_expert_infos() {
    let p = builder_protocol();
    let (mut tree, tvb) = started(Tree::new(&p, pinfo(), 7, Tvb::new(vec![1, 2, 3], 3), 0));
    tree.set_text("Example");
    tree.append_text(", version 1");
    tree.set_length(3);
    assert_eq!(tree.nodes()[0].text.as_deref(), Some("Example"));
    assert_eq!(tree.nodes()[0].appended, ", version 1");
    assert_eq!(tree.nodes()[0].length, 3);
    tree.set_text("Replaced");
    assert_eq!(tree.nodes()[0].appended, "");
    let mut item = tree.add_item("field1", tvb.range(0, 1).unwrap()).unwrap();
    item.set_text(&mut tree, "one");
    item.append_text(&mut tree, "!");
    item.set_length(&mut tree, 1);
    assert_eq!(tree.nodes()[1].text.as_deref(), Some("one"));
    assert_eq!(tree.nodes()[1].appended, "!");
    assert!(tree.add_expert_info(&mut item, "malformed", None).is_ok());
    assert!(tree.add_expert_info(&mut item, "malformed", Some("bad length")).is_ok());
    let experts: Vec<(i32, i32, Option<String>)> =
        tree.expert_infos().iter().map(|e| (e.ei, e.hf, e.text.clone())).collect();
    assert_eq!(experts, vec![(9, 10, None), (9, 10, Some("bad length".to_string()))]);
    match tree.add_expert_info(&mut item, "unknown", Some("text\0with nul")) {
        Err(ExpertError::FieldNotFound(m)) => assert_eq!(m, "unknown"),
        _ => panic!("expected FieldNotFound"),
    }
    assert_eq!(tree.expert_infos().len(), 2);
    // An item of another tree is attached too, and touches no item of this tree.
    let (mut other, tvb2) = started(Tree::new(&p, pinfo(), 8, Tvb::new(vec![1, 2, 3], 3), 0));
    other.add_item("field1", tvb2.range(0, 1).unwrap()).unwrap();
    let mut far = other.add_item("field1", tvb2.range(1, 1).unwrap()).unwrap();
    far.set_text(&mut tree, "elsewhere");
    assert_eq!(tree.nodes()[1].text.as_deref(), Some("one"));
    assert!(tree.enter(&far).is_err());
    assert!(tree.add_expert_info(&mut far, "malformed", None).is_ok());
    assert_eq!(tree.expert_infos().len(), 3);
}

#[test]
fn transformed_data_becomes_a_data_source() {
    let p = builder_protocol();
    let (mut tree, tvb) = started(Tree::new(&p, pinfo(), 7, Tvb::new(vec![1, 2, 3], 3), 0));
    let range = tvb.range(0, 3).unwrap();
    let reverse = |b: &[u8]| -> Result<Vec<u8>, String> { Ok(b.iter().rev().cloned().collect()) };
    let child = tree.transform_data(range, reverse, "Reversed").unwrap();
    assert_eq!(child.get_ptr(0, 3), vec![3, 2, 1]);
    let sources = tree.pinfo.data_sources();
    assert_eq!(sources.len(), 1);
    assert_eq!(sources[0].name, "Reversed");
    assert_eq!(sources[0].tvb.reported_length(), 3);
    tree.pinfo.set_column_text(Column::Protocol, "WSDF");
    assert_eq!(tree.pinfo.column(Column::Protocol), "WSDF");
    assert!(tree.protocol().get_field_handle("field1").is_some());
}

#[test]
fn a_failing_transform_adds_nothing() {
    let p = builder_protocol();
    let (mut tree, tvb) = started(Tree::new(&p, pinfo(), 7, Tvb::new(vec![1, 2, 3], 3), 0));
    let mut seen: Vec<Vec<u8>> = Vec::new();
    let failing = |b: &[u8]| -> Result<Vec<u8>, String> {
        seen.push(b.to_vec());
        Err("corrupt".to_string())
    };
    match tree.transform_data(tvb.range(1, 2).unwrap(), failing, "Decoded") {
        Err(TransformError::Transform(e)) => assert_eq!(e, "corrupt"),
        _ => panic!("expected the transform's error"),
    }
    assert_eq!(seen, vec![vec![2, 3]]);
    assert!(tree.pinfo.data_sources().is_empty());
}

#[test]
fn calling_a_dissector_reports_its_outcome() {
    assert!(matches!(call_result(-3), Err(DissectorHandleError::Unspecified(-3))));
    assert!(matches!(call_result(0), Err(DissectorHandleError::Disabled)));
    assert!(matches!(call_result(14), Ok(14)));
}

#[test]
fn ethertype_data_starts_at_zero() {
    let p = builder_protocol();
    let (tree, _) = started(Tree::new(&p, pinfo(), 7, Tvb::new(vec![1], 1), 0));
    let d = EthertypeData::new(&tree);
    assert_eq!((d.etype, d.payload_offset, d.trailer_id, d.fcs_len), (0, 0, 0, 0));
    assert_eq!(d.fh_tree.nodes().len(), 1);
}
