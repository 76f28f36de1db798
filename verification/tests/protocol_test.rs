use wsdf::protocol::{
    ExpertFieldHandle, FieldBuilder, FieldConvert, FieldStrings, FragmentItemsNames, Protocol,
    ProtocolBuilder, RangeString, RegistrationResult, TrueFalseString, Val64String, ValueString,
    ROOT_ETT_ID,
};
use wsdf::types::{
    DissectorDecodeFrom, ExpertGroup, ExpertSeverity, FieldDisplay, FieldType, Framenum,
    RegistrationError,
};

fn c(s: &str) -> Vec<u8> {
    let mut v = s.as_bytes().to_vec();
    v.push(0);
    v
}

fn example_protocol() -> Protocol<&'static str> {
    let mut p = ProtocolBuilder::new("Example Protocol", "example", "example")
        .field(
            FieldBuilder::new("version", "Version", "example.version")
                .field_type(FieldType::Uint8)
                .build()
                .unwrap(),
        )
        .field(
            FieldBuilder::new("header", "Header", "example.header")
                .field_type(FieldType::Bytes)
                .build()
                .unwrap(),
        )
        .ett("header_ett", "Header Fields")
        .expert_info("malformed", ExpertGroup::Malformed, ExpertSeverity::Error, "Malformed packet")
        .decode_from(DissectorDecodeFrom::Uint("ip.proto".to_string(), vec![17]))
        .dissector("dissect")
        .build()
        .unwrap();
    p.set_proto_handle(42);
    p
}

#[test]
fn field_builder_requires_a_type() {
    let missing = FieldBuilder::new("a", "A", "p.a").build();
    assert!(matches!(missing, Err(RegistrationError::MissingFieldType)));
    let f = FieldBuilder::new("a", "A", "p.a")
        .field_type(FieldType::Uint16)
        .bitmask(0x0ff0)
        .blurb("the a field")
        .build()
        .unwrap();
    assert_eq!(f.id, "a");
    assert_eq!(f.name, "A");
    assert_eq!(f.abbrev, "p.a");
    assert!(matches!(f.display, FieldDisplay::BaseNone));
    assert_eq!(f.bitmask, 0x0ff0);
    assert_eq!(f.blurb.as_deref(), Some("the a field"));
    assert!(f.strings.is_none());
}

#[test]
fn header_field_info_describes_the_field() {
    let f = FieldBuilder::new("kind", "Kind", "p.kind")
        .field_type(FieldType::Uint32)
        .display(FieldDisplay::BaseHex)
        .strings(FieldConvert::ValueStrings(vec![
            ValueString { value: 1, label: "one".to_string() },
            ValueString { value: 2, label: "two".to_string() },
        ]))
        .build()
        .unwrap();
    let h = f.header_field_info();
    assert_eq!(h.name, c("Kind"));
    assert_eq!(h.abbrev, c("p.kind"));
    assert_eq!(h.type_, 7);
    assert_eq!(h.display, 2);
    assert!(h.blurb.is_none());
    match h.strings {
        FieldStrings::ValueStrings(es) => {
            assert_eq!(es.len(), 3);
            assert_eq!((es[0].value, es[0].label.clone()), (1, Some(c("one"))));
            assert_eq!((es[1].value, es[1].label.clone()), (2, Some(c("two"))));
            assert_eq!((es[2].value, es[2].label.clone()), (0, None));
        }
        _ => panic!("expected a value table"),
    }
}

#[test]
fn label_tables_end_with_an_empty_entry() {
    let ranges = FieldBuilder::new("r", "R", "p.r")
        .field_type(FieldType::Uint64)
        .strings(FieldConvert::RangeStrings(vec![
            RangeString { range: 0..=42, label: "low".to_string() },
            RangeString { range: 43..=u64::MAX, label: "high".to_string() },
        ]))
        .build()
        .unwrap()
        .header_field_info();
    match ranges.strings {
        FieldStrings::RangeStrings(es) => {
            assert_eq!(es.len(), 3);
            assert_eq!((es[0].value_min, es[0].value_max), (0, 42));
            assert_eq!((es[1].value_min, es[1].value_max), (43, u64::MAX));
            assert_eq!(es[1].label, Some(c("high")));
            assert_eq!((es[2].value_min, es[2].value_max, es[2].label.clone()), (0, 0, None));
        }
        _ => panic!("expected a range table"),
    }
    let big = FieldBuilder::new("v", "V", "p.v")
        .field_type(FieldType::Uint64)
        .strings(FieldConvert::Val64Strings(vec![Val64String { value: 1 << 40, label: "big".to_string() }]))
        .build()
        .unwrap()
        .header_field_info();
    match big.strings {
        FieldStrings::Val64Strings(es) => {
            assert_eq!(es.len(), 2);
            assert_eq!((es[0].value, es[0].label.clone()), (1 << 40, Some(c("big"))));
            assert_eq!((es[1].value, es[1].label.clone()), (0, None));
        }
        _ => panic!("expected a 64-bit value table"),
    }
    let flag = FieldBuilder::new("f", "F", "p.f")
        .field_type(FieldType::Boolean)
        .display(FieldDisplay::Boolean(8))
        .strings(FieldConvert::TrueFalseString(TrueFalseString { true_string: "Yes", false_string: "No" }))
        .blurb("a flag")
        .build()
        .unwrap()
        .header_field_info();
    assert_eq!(flag.display, 8);
    assert_eq!(flag.blurb, Some(c("a flag")));
    match flag.strings {
        FieldStrings::TrueFalse(e) => {
            assert_eq!(e.true_string, c("Yes"));
            assert_eq!(e.false_string, c("No"));
        }
        _ => panic!("expected true/false labels"),
    }
    let frame = FieldBuilder::new("fr", "Fr", "p.fr")
        .field_type(FieldType::Framenum)
        .strings(FieldConvert::Framenum(Framenum::Response))
        .build()
        .unwrap()
        .header_field_info();
    assert!(matches!(frame.strings, FieldStrings::Framenum(2)));
    assert_eq!(frame.type_, 35);
}

#[test]
fn build_needs_a_dissector_and_adds_the_root_ett() {
    let missing = ProtocolBuilder::<()>::new("P", "p", "p").ett("header", "Header Fields").build();
    assert!(matches!(missing, Err(RegistrationError::MissingDissector)));
    let unregistered = ProtocolBuilder::new("P", "p", "p").dissector(()).build().unwrap();
    assert_eq!(unregistered.get_proto_handle(), -1);
    let names = unregistered.protocol_names();
    assert_eq!((names.name, names.abbrev, names.filter), (c("P"), c("p"), c("p")));
    let p = example_protocol();
    assert_eq!(p.abbrev, "example");
    assert_eq!(p.get_proto_handle(), 42);
    assert_eq!(p.dissector_fn, "dissect");
    assert_eq!(p.match_definitions.as_ref().map(|m| m.len()), Some(1));
    let request = p.registration_request();
    assert_eq!(request.ett_count, 2);
    assert_eq!(request.fields.len(), 2);
    assert_eq!(request.fields[0].abbrev, c("example.version"));
    assert_eq!(request.fields[0].type_, 4);
    assert_eq!(request.experts.len(), 1);
    assert_eq!(request.experts[0].name, c("example.malformed"));
    assert_eq!(request.experts[0].group, 0x07000000);
    assert_eq!(request.experts[0].severity, 0x00800000);
    assert_eq!(request.experts[0].summary, c("Malformed packet"));
    // Nothing is looked up before registration.
    assert_eq!(p.get_ett_handle(ROOT_ETT_ID), None);
    assert_eq!(p.get_field_handle("version"), None);
}

#[test]
fn registration_records_every_handle() {
    let mut p = example_protocol();
    p.register(&RegistrationResult {
        field_handles: vec![100, 101],
        ett_handles: vec![7, 8],
        expert_handles: vec![ExpertFieldHandle { ei: 3, hf: 4 }],
    });
    assert_eq!(p.get_field_handle("version"), Some(100));
    assert_eq!(p.get_field_handle("header"), Some(101));
    assert_eq!(p.get_field_handle("example.version"), None);
    assert_eq!(p.get_ett_handle("_root"), Some(7));
    assert_eq!(p.get_ett_handle("header_ett"), Some(8));
    let e = p.get_expert_field("malformed").unwrap();
    assert_eq!((e.ei, e.hf), (3, 4));
    assert!(p.get_expert_field("other").is_none());
}

#[test]
fn single_registrations_fail_on_unset_handles() {
    let mut p = example_protocol();
    let f = FieldBuilder::new("extra", "Extra", "example.extra").field_type(FieldType::Int8).build().unwrap();
    assert!(matches!(p.register_field(&f, -1), Err(RegistrationError::RegistrationFailed)));
    assert_eq!(p.get_field_handle("extra"), None);
    assert!(p.register_field(&f, 55).is_ok());
    assert_eq!(p.get_field_handle("extra"), Some(55));
    // A second registration of the same name takes the newer handle.
    assert!(p.register_field(&f, 56).is_ok());
    assert_eq!(p.get_field_handle("extra"), Some(56));
    let info = wsdf::protocol::ExpertFieldInfo {
        id: "late".to_string(),
        group: ExpertGroup::Sequence,
        severity: ExpertSeverity::Warn,
        summary: "Late".to_string(),
    };
    assert!(matches!(
        p.register_expert_info(&info, ExpertFieldHandle { ei: 1, hf: -1 }),
        Err(RegistrationError::RegistrationFailed)
    ));
    assert!(p.get_expert_field("late").is_none());
    assert!(p.register_expert_info(&info, ExpertFieldHandle { ei: 1, hf: 2 }).is_ok());
    assert_eq!(p.get_expert_field("late").map(|h| h.hf), Some(2));
    p.register_ett(&vec![11, 12]);
    assert_eq!(p.get_ett_handle("header_ett"), Some(12));
}

fn fragment_names() -> FragmentItemsNames {
    FragmentItemsNames {
        ett_fragment: "frag_ett".to_string(),
        ett_fragments: Some("frags_ett".to_string()),
        hf_fragments: "frags".to_string(),
        hf_fragment: "frag".to_string(),
        hf_fragment_overlap: "overlap".to_string(),
        hf_fragment_overlap_conflict: "conflict".to_string(),
        hf_fragment_multiple_tails: "tails".to_string(),
        hf_fragment_too_long_fragment: "too_long".to_string(),
        hf_fragment_error: "error".to_string(),
        hf_fragment_count: Some("count".to_string()),
        hf_reassembled_in: None,
        hf_reassembled_length: Some("unregistered".to_string()),
        hf_reassembled_data: None,
        tag: "fragments".to_string(),
    }
}

#[test]
fn fragment_items_resolve_their_names() {
    let names = ["frags", "frag", "overlap", "conflict", "tails", "too_long", "error", "count"];
    let mut b = ProtocolBuilder::new("P", "p", "p").dissector(()).ett("frag_ett", "Fragment");
    for n in names {
        b = b.field(FieldBuilder::new(n, n, n).field_type(FieldType::Bytes).build().unwrap());
    }
    let mut p = b.fragment_items(fragment_names()).build().unwrap();
    assert!(p.get_fragment_items().is_none());
    p.register(&RegistrationResult {
        field_handles: (10..18).collect(),
        ett_handles: vec![1, 2],
        expert_handles: vec![],
    });
    let f = p.get_fragment_items().unwrap();
    assert_eq!(f.ett_fragment, 2);
    assert_eq!(f.ett_fragments, None);
    assert_eq!(f.hf_fragments, 10);
    assert_eq!(f.hf_fragment_error, 16);
    assert_eq!(f.hf_fragment_count, Some(17));
    assert_eq!(f.hf_reassembled_in, None);
    assert_eq!(f.hf_reassembled_length, None);
    assert_eq!(f.tag, "fragments");
    let none = ProtocolBuilder::new("Q", "q", "q").dissector(()).build().unwrap();
    assert!(none.get_fragment_items().is_none());
}

#[test]
fn registration_request_carries_blurbs() {
    let p = ProtocolBuilder::new("P", "p", "p")
        .field(FieldBuilder::new("a", "A", "p.a").field_type(FieldType::Uint8).build().unwrap())
        .field(
            FieldBuilder::new("b", "B", "p.b")
                .field_type(FieldType::Uint8)
                .blurb("The second field")
                .build()
                .unwrap(),
        )
        .dissector(())
        .build()
        .unwrap();
    let request = p.registration_request();
    assert_eq!(request.fields[0].blurb, None);
    assert_eq!(request.fields[1].blurb, Some(c("The second field")));
    let f = &request.fields[1];
    assert_eq!((f.id, f.parent, f.ref_type, f.same_name_prev_id), (-1, 0, 0, -1));
}
