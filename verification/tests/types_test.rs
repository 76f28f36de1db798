use wsdf::types::{
    to_c_str, DissectorError, Encoding, ExpertGroup, ExpertSeverity, FieldDisplay, FieldType,
    Framenum, PluginType, RegistrationError, TreeError, TvbError, WiresharkError,
};

#[test]
fn c_strings_end_with_nul() {
    assert_eq!(to_c_str("wsdf"), vec![b'w', b's', b'd', b'f', 0]);
    assert_eq!(to_c_str(""), vec![0]);
    assert_eq!(to_c_str("é"), vec![0xc3, 0xa9, 0]);
}

#[test]
fn wireshark_codes() {
    assert_eq!(FieldType::FtNone.to_u32(), 0);
    assert_eq!(FieldType::Uint8.to_u32(), 4);
    assert_eq!(FieldType::Bytes.to_u32(), 30);
    assert_eq!(FieldType::StringzTrunc.to_u32(), 45);
    assert_eq!(FieldType::Scalar.to_u32(), 47);
    assert_eq!(FieldDisplay::BaseHex.to_u32(), 2);
    assert_eq!(FieldDisplay::BaseStrWsp.to_u32(), 23);
    assert_eq!(FieldDisplay::Boolean(16).to_u32(), 16);
    assert_eq!(Framenum::NumTypes.to_u32(), 7);
    assert_eq!(Encoding::BigEndian.to_u32(), 0);
    assert_eq!(Encoding::LittleEndian.to_u32(), 0x8000_0000);
    assert_eq!(Encoding::UTF8.to_u32(), 2);
    assert_eq!(Encoding::ASCII7Bits.to_u32(), 0x34);
    assert_eq!(Encoding::StrHex.to_u32(), 0x0200_0000);
    assert_eq!(Encoding::VarintMask.to_u32(), 0x1e);
    assert_eq!(ExpertSeverity::Warn.to_u32(), 0x0060_0000);
    assert_eq!(ExpertGroup::DissectorBug.to_u32(), 0x1100_0000);
    assert_eq!(PluginType::Dissector.to_constant(), 1);
    assert_eq!(PluginType::DFilter.to_constant(), 32);
}

#[test]
fn errors_convert_into_the_wider_ones() {
    let e: DissectorError = TvbError::OutOfBounds.into();
    assert!(matches!(e, DissectorError::TvbError(TvbError::OutOfBounds)));
    let w: WiresharkError = RegistrationError::MissingDissector.into();
    assert!(matches!(w, WiresharkError::RegistrationError(RegistrationError::MissingDissector)));
    let w: WiresharkError = TreeError::EttNotFound("x".to_string()).into();
    assert!(matches!(w, WiresharkError::TreeError(TreeError::EttNotFound(_))));
    let w: WiresharkError = DissectorError::InvalidPacketData.into();
    assert!(matches!(w, WiresharkError::DissectorError(DissectorError::InvalidPacketData)));
}
