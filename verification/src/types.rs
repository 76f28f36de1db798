use std::num::TryFromIntError;
use vstd::prelude::*;
use vstd::slice::slice_to_vec;
use vstd::string::StringSliceAdditionalSpecFns;

verus! {

/// Copies `s` into a NUL-terminated byte string: the UTF-8 bytes of `s` followed by one zero
/// byte. Interior NUL bytes are copied as they are, so a C reader stops at the first of them.
pub fn to_c_str(s: &str) -> (c: Vec<u8>)
    ensures
        c@ == s.spec_bytes().push(0u8),
{
    let mut c = slice_to_vec(s.as_bytes());
    c.push(0u8);
    c
}

/// Where a dissector is attached when its protocol is handed over for registration.
pub enum DissectorDecodeFrom {
    /// Offered in Wireshark's "Decode As" list of the named table.
    DecodeAs(String),
    /// Called by the named integer table for each of the listed values.
    Uint(String, Vec<u32>),
}

/// Field types supported by Wireshark.
///
/// These correspond to the FT_* types in Wireshark's ftypes.h.
#[allow(non_camel_case_types)]
#[derive(Copy, Clone, Debug)]
pub enum FieldType {
    FtNone,
    Protocol,
    Boolean,
    Char,
    Uint8,
    Uint16,
    Uint24,
    Uint32,
    Uint40,
    Uint48,
    Uint56,
    Uint64,
    Int8,
    Int16,
    Int24,
    Int32,
    Int40,
    Int48,
    Int56,
    Int64,
    IEEE_11073_SFLOAT,
    IEEE_11073_FLOAT,
    Float,
    Double,
    AbsoluteTime,
    RelativeTime,
    String,
    Stringz,
    UintString,
    Ether,
    Bytes,
    UintBytes,
    IPv4,
    IPv6,
    IPXNET,
    Framenum,
    Guid,
    Oid,
    EUI64,
    Ax25,
    Vines,
    RelOid,
    SystemId,
    StringzPad,
    Fcwwn,
    StringzTrunc,
    Scalar,
}

/// The numeric `ftenum` value that Wireshark's ftypes.h gives each field type.
pub open spec fn field_type_code(t: FieldType) -> u32 {
    match t {
        FieldType::FtNone => 0,
        FieldType::Protocol => 1,
        FieldType::Boolean => 2,
        FieldType::Char => 3,
        FieldType::Uint8 => 4,
        FieldType::Uint16 => 5,
        FieldType::Uint24 => 6,
        FieldType::Uint32 => 7,
        FieldType::Uint40 => 8,
        FieldType::Uint48 => 9,
        FieldType::Uint56 => 10,
        FieldType::Uint64 => 11,
        FieldType::Int8 => 12,
        FieldType::Int16 => 13,
        FieldType::Int24 => 14,
        FieldType::Int32 => 15,
        FieldType::Int40 => 16,
        FieldType::Int48 => 17,
        FieldType::Int56 => 18,
        FieldType::Int64 => 19,
        FieldType::IEEE_11073_SFLOAT => 20,
        FieldType::IEEE_11073_FLOAT => 21,
        FieldType::Float => 22,
        FieldType::Double => 23,
        FieldType::AbsoluteTime => 24,
        FieldType::RelativeTime => 25,
        FieldType::String => 26,
        FieldType::Stringz => 27,
        FieldType::UintString => 28,
        FieldType::Ether => 29,
        FieldType::Bytes => 30,
        FieldType::UintBytes => 31,
        FieldType::IPv4 => 32,
        FieldType::IPv6 => 33,
        FieldType::IPXNET => 34,
        FieldType::Framenum => 35,
        FieldType::Guid => 36,
        FieldType::Oid => 37,
        FieldType::EUI64 => 38,
        FieldType::Ax25 => 39,
        FieldType::Vines => 40,
        FieldType::RelOid => 41,
        FieldType::SystemId => 42,
        FieldType::StringzPad => 43,
        FieldType::Fcwwn => 44,
        FieldType::StringzTrunc => 45,
        FieldType::Scalar => 47,
    }
}

impl FieldType {
    /// The `ftenum` value of this field type.
    pub fn to_u32(self) -> (code: u32)
        ensures
            code == field_type_code(self),
    {
        match self {
            FieldType::FtNone => 0,
            FieldType::Protocol => 1,
            FieldType::Boolean => 2,
            FieldType::Char => 3,
            FieldType::Uint8 => 4,
            FieldType::Uint16 => 5,
            FieldType::Uint24 => 6,
            FieldType::Uint32 => 7,
            FieldType::Uint40 => 8,
            FieldType::Uint48 => 9,
            FieldType::Uint56 => 10,
            FieldType::Uint64 => 11,
            FieldType::Int8 => 12,
            FieldType::Int16 => 13,
            FieldType::Int24 => 14,
            FieldType::Int32 => 15,
            FieldType::Int40 => 16,
            FieldType::Int48 => 17,
            FieldType::Int56 => 18,
            FieldType::Int64 => 19,
            FieldType::IEEE_11073_SFLOAT => 20,
            FieldType::IEEE_11073_FLOAT => 21,
            FieldType::Float => 22,
            FieldType::Double => 23,
            FieldType::AbsoluteTime => 24,
            FieldType::RelativeTime => 25,
            FieldType::String => 26,
            FieldType::Stringz => 27,
            FieldType::UintString => 28,
            FieldType::Ether => 29,
            FieldType::Bytes => 30,
            FieldType::UintBytes => 31,
            FieldType::IPv4 => 32,
            FieldType::IPv6 => 33,
            FieldType::IPXNET => 34,
            FieldType::Framenum => 35,
            FieldType::Guid => 36,
            FieldType::Oid => 37,
            FieldType::EUI64 => 38,
            FieldType::Ax25 => 39,
            FieldType::Vines => 40,
            FieldType::RelOid => 41,
            FieldType::SystemId => 42,
            FieldType::StringzPad => 43,
            FieldType::Fcwwn => 44,
            FieldType::StringzTrunc => 45,
            FieldType::Scalar => 47,
        }
    }
}

/// How Wireshark displays the value of a field (the `field_display_e` of proto.h).
///
/// `Boolean(width)` gives the bit width of a boolean field, which Wireshark reads from the same
/// member.
#[derive(Copy, Clone, Debug)]
pub enum FieldDisplay {
    BaseNone,
    BaseDec,
    BaseHex,
    BaseOct,
    BaseDecHex,
    BaseHexDec,
    BaseCustom,
    BaseExp,
    SepDot,
    SepDash,
    SepColon,
    SepSpace,
    BaseNetmask,
    BasePtUdp,
    BasePtTcp,
    BasePtDccp,
    BasePtSctp,
    BaseOui,
    AbsoluteTimeLocal,
    AbsoluteTimeUtc,
    AbsoluteTimeDoyUtc,
    AbsoluteTimeNtpUtc,
    AbsoluteTimeUnix,
    BaseStrWsp,
    Boolean(u32),
}

impl Default for FieldDisplay {
    fn default() -> (d: Self)
        ensures
            d is BaseNone,
    {
        FieldDisplay::BaseNone
    }
}

/// The numeric `field_display_e` value of a display; a boolean field's display is its width.
pub open spec fn field_display_code(d: FieldDisplay) -> u32 {
    match d {
        FieldDisplay::BaseNone => 0,
        FieldDisplay::BaseDec => 1,
        FieldDisplay::BaseHex => 2,
        FieldDisplay::BaseOct => 3,
        FieldDisplay::BaseDecHex => 4,
        FieldDisplay::BaseHexDec => 5,
        FieldDisplay::BaseCustom => 6,
        FieldDisplay::BaseExp => 7,
        FieldDisplay::SepDot => 8,
        FieldDisplay::SepDash => 9,
        FieldDisplay::SepColon => 10,
        FieldDisplay::SepSpace => 11,
        FieldDisplay::BaseNetmask => 12,
        FieldDisplay::BasePtUdp => 13,
        FieldDisplay::BasePtTcp => 14,
        FieldDisplay::BasePtDccp => 15,
        FieldDisplay::BasePtSctp => 16,
        FieldDisplay::BaseOui => 17,
        FieldDisplay::AbsoluteTimeLocal => 18,
        FieldDisplay::AbsoluteTimeUtc => 19,
        FieldDisplay::AbsoluteTimeDoyUtc => 20,
        FieldDisplay::AbsoluteTimeNtpUtc => 21,
        FieldDisplay::AbsoluteTimeUnix => 22,
        FieldDisplay::BaseStrWsp => 23,
        FieldDisplay::Boolean(width) => width,
    }
}

impl FieldDisplay {
    /// The `field_display_e` value of this display.
    pub fn to_u32(self) -> (code: u32)
        ensures
            code == field_display_code(self),
    {
        match self {
            FieldDisplay::BaseNone => 0,
            FieldDisplay::BaseDec => 1,
            FieldDisplay::BaseHex => 2,
            FieldDisplay::BaseOct => 3,
            FieldDisplay::BaseDecHex => 4,
            FieldDisplay::BaseHexDec => 5,
            FieldDisplay::BaseCustom => 6,
            FieldDisplay::BaseExp => 7,
            FieldDisplay::SepDot => 8,
            FieldDisplay::SepDash => 9,
            FieldDisplay::SepColon => 10,
            FieldDisplay::SepSpace => 11,
            FieldDisplay::BaseNetmask => 12,
            FieldDisplay::BasePtUdp => 13,
            FieldDisplay::BasePtTcp => 14,
            FieldDisplay::BasePtDccp => 15,
            FieldDisplay::BasePtSctp => 16,
            FieldDisplay::BaseOui => 17,
            FieldDisplay::AbsoluteTimeLocal => 18,
            FieldDisplay::AbsoluteTimeUtc => 19,
            FieldDisplay::AbsoluteTimeDoyUtc => 20,
            FieldDisplay::AbsoluteTimeNtpUtc => 21,
            FieldDisplay::AbsoluteTimeUnix => 22,
            FieldDisplay::BaseStrWsp => 23,
            FieldDisplay::Boolean(width) => width,
        }
    }
}

/// The purpose of a frame-number field, which selects the symbol Wireshark draws for it.
#[derive(Clone, Copy, Debug)]
pub enum Framenum {
    FramenumNone,
    Request,
    Response,
    Ack,
    DupAck,
    RetransPrev,
    RetransNext,
    NumTypes,
}

/// The numeric `ft_framenum_type_t` value of a frame-number purpose.
pub open spec fn framenum_code(f: Framenum) -> u32 {
    match f {
        Framenum::FramenumNone => 0,
        Framenum::Request => 1,
        Framenum::Response => 2,
        Framenum::Ack => 3,
        Framenum::DupAck => 4,
        Framenum::RetransPrev => 5,
        Framenum::RetransNext => 6,
        Framenum::NumTypes => 7,
    }
}

impl Framenum {
    /// The `ft_framenum_type_t` value of this purpose.
    pub fn to_u32(self) -> (code: u32)
        ensures
            code == framenum_code(self),
    {
        match self {
            Framenum::FramenumNone => 0,
            Framenum::Request => 1,
            Framenum::Response => 2,
            Framenum::Ack => 3,
            Framenum::DupAck => 4,
            Framenum::RetransPrev => 5,
            Framenum::RetransNext => 6,
            Framenum::NumTypes => 7,
        }
    }
}

/// Encodings of field values, as Wireshark's ENC_* flags name them.
#[allow(non_camel_case_types)]
#[derive(Copy, Clone, Debug)]
pub enum Encoding {
    BigEndian,
    LittleEndian,
    HostEndian,
    AntiHostEndian,
    NA,
    UTF8,
    UTF16,
    UCS2,
    UCS4,
    ISO8859_1,
    ISO8859_2,
    ISO8859_3,
    ISO8859_4,
    ISO8859_5,
    ISO8859_6,
    ISO8859_7,
    ISO8859_8,
    ISO8859_9,
    ISO8859_10,
    ISO8859_11,
    ISO8859_13,
    ISO8859_14,
    ISO8859_15,
    ISO8859_16,
    Windows1250,
    Windows1252,
    Windows1251,
    CP437,
    ASCII7Bits,
    T61,
    EBCDIC_CP037,
    CP855,
    CP866,
    ISO646Basic,
    BCDDigits0_9,
    KeypadABC_TBCD,
    KeypadBC_TBCD,
    GpppTS23_038_7BitsPacked,
    GpppTS23_038_7Bits,
    ETSITS102221AnnexA,
    GB18030,
    EUCKR,
    APNStr,
    DECTStandard8Bits,
    DECTStandard4BitsTBCD,
    EBCDIC_CP500,
    Zigbee,
    BOM,
    StrNum,
    StrHex,
    String,
    StrMask,
    NumPref,
    SepNone,
    SepColon,
    SepDash,
    SepDot,
    SepSpace,
    SepMask,
    BCDOddNumDig,
    BCDSkipFirst,
    TimeSecsNsecs,
    TimeTimespec,
    TimeNTP,
    TimeTOD,
    TimeRTPS,
    TimeNTPBaseZero,
    TimeSecsUsecs,
    TimeTimeval,
    TimeSecs,
    TimeMsecs,
    TimeSecsNTP,
    TimeRFC3971,
    TimeMsecNTP,
    TimeMip6,
    TimeMp4FileSecs,
    TimeClassicMacOSSecs,
    TimeNsecs,
    TimeUsecs,
    TimeZBeeZCL,
    ISO8601Date,
    ISO8601Time,
    ISO8601DateTime,
    IMFDateTime,
    RFC822,
    RFC1123,
    ISO8601DateTimeBasic,
    StrTimeMask,
    VarintProtobuf,
    VarintQUIC,
    VarintZigzag,
    VarintSDNV,
    VarintMask,
}

/// The ENC_* flag value of an encoding, as Wireshark's proto.h defines it. The host is taken to
/// be little-endian, so `HostEndian` is the little-endian flag and `AntiHostEndian` the
/// big-endian one.
pub open spec fn encoding_code(e: Encoding) -> u32 {
    match e {
        Encoding::BigEndian => 0,
        Encoding::LittleEndian => 0x80000000,
        Encoding::HostEndian => 0x80000000,
        Encoding::AntiHostEndian => 0,
        Encoding::NA => 0,
        Encoding::UTF8 => 2,
        Encoding::UTF16 => 4,
        Encoding::UCS2 => 6,
        Encoding::UCS4 => 8,
        Encoding::ISO8859_1 => 10,
        Encoding::ISO8859_2 => 12,
        Encoding::ISO8859_3 => 14,
        Encoding::ISO8859_4 => 16,
        Encoding::ISO8859_5 => 18,
        Encoding::ISO8859_6 => 20,
        Encoding::ISO8859_7 => 22,
        Encoding::ISO8859_8 => 24,
        Encoding::ISO8859_9 => 26,
        Encoding::ISO8859_10 => 28,
        Encoding::ISO8859_11 => 30,
        Encoding::ISO8859_13 => 34,
        Encoding::ISO8859_14 => 36,
        Encoding::ISO8859_15 => 38,
        Encoding::ISO8859_16 => 40,
        Encoding::Windows1250 => 42,
        Encoding::Windows1252 => 58,
        Encoding::Windows1251 => 60,
        Encoding::CP437 => 50,
        Encoding::ASCII7Bits => 52,
        Encoding::T61 => 54,
        Encoding::EBCDIC_CP037 => 56,
        Encoding::CP855 => 62,
        Encoding::CP866 => 64,
        Encoding::ISO646Basic => 66,
        Encoding::BCDDigits0_9 => 68,
        Encoding::KeypadABC_TBCD => 70,
        Encoding::KeypadBC_TBCD => 72,
        Encoding::GpppTS23_038_7BitsPacked => 44,
        Encoding::GpppTS23_038_7Bits => 44,
        Encoding::ETSITS102221AnnexA => 78,
        Encoding::GB18030 => 80,
        Encoding::EUCKR => 82,
        Encoding::APNStr => 84,
        Encoding::DECTStandard8Bits => 86,
        Encoding::DECTStandard4BitsTBCD => 88,
        Encoding::EBCDIC_CP500 => 96,
        Encoding::Zigbee => 0x40000000,
        Encoding::BOM => 0x20000000,
        Encoding::StrNum => 0x01000000,
        Encoding::StrHex => 0x02000000,
        Encoding::String => 0x03000000,
        Encoding::StrMask => 0x0000fffe,
        Encoding::NumPref => 0x00200000,
        Encoding::SepNone => 0x00010000,
        Encoding::SepColon => 0x00020000,
        Encoding::SepDash => 0x00040000,
        Encoding::SepDot => 0x00080000,
        Encoding::SepSpace => 0x00100000,
        Encoding::SepMask => 0x001f0000,
        Encoding::BCDOddNumDig => 0x00010000,
        Encoding::BCDSkipFirst => 0x00020000,
        Encoding::TimeSecsNsecs => 0,
        Encoding::TimeTimespec => 0,
        Encoding::TimeNTP => 2,
        Encoding::TimeTOD => 4,
        Encoding::TimeRTPS => 8,
        Encoding::TimeNTPBaseZero => 8,
        Encoding::TimeSecsUsecs => 16,
        Encoding::TimeTimeval => 16,
        Encoding::TimeSecs => 18,
        Encoding::TimeMsecs => 20,
        Encoding::TimeSecsNTP => 24,
        Encoding::TimeRFC3971 => 32,
        Encoding::TimeMsecNTP => 34,
        Encoding::TimeMip6 => 36,
        Encoding::TimeMp4FileSecs => 38,
        Encoding::TimeClassicMacOSSecs => 38,
        Encoding::TimeNsecs => 40,
        Encoding::TimeUsecs => 48,
        Encoding::TimeZBeeZCL => 50,
        Encoding::ISO8601Date => 0x00010000,
        Encoding::ISO8601Time => 0x00020000,
        Encoding::ISO8601DateTime => 0x00030000,
        Encoding::IMFDateTime => 0x00040000,
        Encoding::RFC822 => 0x00040000,
        Encoding::RFC1123 => 0x00040000,
        Encoding::ISO8601DateTimeBasic => 0x00100000,
        Encoding::StrTimeMask => 0x001f0000,
        Encoding::VarintProtobuf => 2,
        Encoding::VarintQUIC => 4,
        Encoding::VarintZigzag => 8,
        Encoding::VarintSDNV => 16,
        Encoding::VarintMask => 30,
    }
}

impl Encoding {
    /// The ENC_* flag value of this encoding.
    pub fn to_u32(self) -> (code: u32)
        ensures
            code == encoding_code(self),
    {
        match self {
            Encoding::BigEndian => 0,
            Encoding::LittleEndian => 0x80000000,
            Encoding::HostEndian => 0x80000000,
            Encoding::AntiHostEndian => 0,
            Encoding::NA => 0,
            Encoding::UTF8 => 2,
            Encoding::UTF16 => 4,
            Encoding::UCS2 => 6,
            Encoding::UCS4 => 8,
            Encoding::ISO8859_1 => 10,
            Encoding::ISO8859_2 => 12,
            Encoding::ISO8859_3 => 14,
            Encoding::ISO8859_4 => 16,
            Encoding::ISO8859_5 => 18,
            Encoding::ISO8859_6 => 20,
            Encoding::ISO8859_7 => 22,
            Encoding::ISO8859_8 => 24,
            Encoding::ISO8859_9 => 26,
            Encoding::ISO8859_10 => 28,
            Encoding::ISO8859_11 => 30,
            Encoding::ISO8859_13 => 34,
            Encoding::ISO8859_14 => 36,
            Encoding::ISO8859_15 => 38,
            Encoding::ISO8859_16 => 40,
            Encoding::Windows1250 => 42,
            Encoding::Windows1252 => 58,
            Encoding::Windows1251 => 60,
            Encoding::CP437 => 50,
            Encoding::ASCII7Bits => 52,
            Encoding::T61 => 54,
            Encoding::EBCDIC_CP037 => 56,
            Encoding::CP855 => 62,
            Encoding::CP866 => 64,
            Encoding::ISO646Basic => 66,
            Encoding::BCDDigits0_9 => 68,
            Encoding::KeypadABC_TBCD => 70,
            Encoding::KeypadBC_TBCD => 72,
            Encoding::GpppTS23_038_7BitsPacked => 44,
            Encoding::GpppTS23_038_7Bits => 44,
            Encoding::ETSITS102221AnnexA => 78,
            Encoding::GB18030 => 80,
            Encoding::EUCKR => 82,
            Encoding::APNStr => 84,
            Encoding::DECTStandard8Bits => 86,
            Encoding::DECTStandard4BitsTBCD => 88,
            Encoding::EBCDIC_CP500 => 96,
            Encoding::Zigbee => 0x40000000,
            Encoding::BOM => 0x20000000,
            Encoding::StrNum => 0x01000000,
            Encoding::StrHex => 0x02000000,
            Encoding::String => 0x03000000,
            Encoding::StrMask => 0x0000fffe,
            Encoding::NumPref => 0x00200000,
            Encoding::SepNone => 0x00010000,
            Encoding::SepColon => 0x00020000,
            Encoding::SepDash => 0x00040000,
            Encoding::SepDot => 0x00080000,
            Encoding::SepSpace => 0x00100000,
            Encoding::SepMask => 0x001f0000,
            Encoding::BCDOddNumDig => 0x00010000,
            Encoding::BCDSkipFirst => 0x00020000,
            Encoding::TimeSecsNsecs => 0,
            Encoding::TimeTimespec => 0,
            Encoding::TimeNTP => 2,
            Encoding::TimeTOD => 4,
            Encoding::TimeRTPS => 8,
            Encoding::TimeNTPBaseZero => 8,
            Encoding::TimeSecsUsecs => 16,
            Encoding::TimeTimeval => 16,
            Encoding::TimeSecs => 18,
            Encoding::TimeMsecs => 20,
            Encoding::TimeSecsNTP => 24,
            Encoding::TimeRFC3971 => 32,
            Encoding::TimeMsecNTP => 34,
            Encoding::TimeMip6 => 36,
            Encoding::TimeMp4FileSecs => 38,
            Encoding::TimeClassicMacOSSecs => 38,
            Encoding::TimeNsecs => 40,
            Encoding::TimeUsecs => 48,
            Encoding::TimeZBeeZCL => 50,
            Encoding::ISO8601Date => 0x00010000,
            Encoding::ISO8601Time => 0x00020000,
            Encoding::ISO8601DateTime => 0x00030000,
            Encoding::IMFDateTime => 0x00040000,
            Encoding::RFC822 => 0x00040000,
            Encoding::RFC1123 => 0x00040000,
            Encoding::ISO8601DateTimeBasic => 0x00100000,
            Encoding::StrTimeMask => 0x001f0000,
            Encoding::VarintProtobuf => 2,
            Encoding::VarintQUIC => 4,
            Encoding::VarintZigzag => 8,
            Encoding::VarintSDNV => 16,
            Encoding::VarintMask => 30,
        }
    }
}

/// Severity of an expert info entry.
#[derive(Clone, Copy, Debug)]
pub enum ExpertSeverity {
    Comment,
    Chat,
    Note,
    Warn,
    Error,
}

/// The PI_* severity value of proto.h for a severity.
pub open spec fn expert_severity_code(s: ExpertSeverity) -> u32 {
    match s {
        ExpertSeverity::Comment => 0x00100000,
        ExpertSeverity::Chat => 0x00200000,
        ExpertSeverity::Note => 0x00400000,
        ExpertSeverity::Warn => 0x00600000,
        ExpertSeverity::Error => 0x00800000,
    }
}

impl ExpertSeverity {
    /// The PI_* severity value of this severity.
    pub fn to_u32(self) -> (code: u32)
        ensures
            code == expert_severity_code(self),
    {
        match self {
            ExpertSeverity::Comment => 0x00100000,
            ExpertSeverity::Chat => 0x00200000,
            ExpertSeverity::Note => 0x00400000,
            ExpertSeverity::Warn => 0x00600000,
            ExpertSeverity::Error => 0x00800000,
        }
    }
}

/// Group of an expert info entry.
#[derive(Clone, Copy, Debug)]
pub enum ExpertGroup {
    Checksum,
    Sequence,
    ResponseCode,
    RequestCode,
    Undecoded,
    Reassemble,
    Malformed,
    Debug,
    Protocol,
    Security,
    CommentsGroup,
    Decryption,
    Assumption,
    Deprecated,
    Receive,
    Interface,
    DissectorBug,
}

/// The PI_* group value of proto.h for a group.
pub open spec fn expert_group_code(g: ExpertGroup) -> u32 {
    match g {
        ExpertGroup::Checksum => 0x01000000,
        ExpertGroup::Sequence => 0x02000000,
        ExpertGroup::ResponseCode => 0x03000000,
        ExpertGroup::RequestCode => 0x04000000,
        ExpertGroup::Undecoded => 0x05000000,
        ExpertGroup::Reassemble => 0x06000000,
        ExpertGroup::Malformed => 0x07000000,
        ExpertGroup::Debug => 0x08000000,
        ExpertGroup::Protocol => 0x09000000,
        ExpertGroup::Security => 0x0a000000,
        ExpertGroup::CommentsGroup => 0x0b000000,
        ExpertGroup::Decryption => 0x0c000000,
        ExpertGroup::Assumption => 0x0d000000,
        ExpertGroup::Deprecated => 0x0e000000,
        ExpertGroup::Receive => 0x0f000000,
        ExpertGroup::Interface => 0x10000000,
        ExpertGroup::DissectorBug => 0x11000000,
    }
}

impl ExpertGroup {
    /// The PI_* group value of this group.
    pub fn to_u32(self) -> (code: u32)
        ensures
            code == expert_group_code(self),
    {
        match self {
            ExpertGroup::Checksum => 0x01000000,
            ExpertGroup::Sequence => 0x02000000,
            ExpertGroup::ResponseCode => 0x03000000,
            ExpertGroup::RequestCode => 0x04000000,
            ExpertGroup::Undecoded => 0x05000000,
            ExpertGroup::Reassemble => 0x06000000,
            ExpertGroup::Malformed => 0x07000000,
            ExpertGroup::Debug => 0x08000000,
            ExpertGroup::Protocol => 0x09000000,
            ExpertGroup::Security => 0x0a000000,
            ExpertGroup::CommentsGroup => 0x0b000000,
            ExpertGroup::Decryption => 0x0c000000,
            ExpertGroup::Assumption => 0x0d000000,
            ExpertGroup::Deprecated => 0x0e000000,
            ExpertGroup::Receive => 0x0f000000,
            ExpertGroup::Interface => 0x10000000,
            ExpertGroup::DissectorBug => 0x11000000,
        }
    }
}

/// Columns of the packet list that a dissector writes to.
#[derive(Clone, Copy, Debug)]
pub enum Column {
    Protocol,
    Info,
}

/// Kinds of Wireshark plugins.
#[derive(Copy, Clone, Debug)]
pub enum PluginType {
    Dissector,
    FileType,
    Codec,
    Epan,
    TapListener,
    DFilter,
}

/// The WS_PLUGIN_DESC_* flag of a plugin kind: one bit per kind.
pub open spec fn plugin_type_code(p: PluginType) -> u32 {
    match p {
        PluginType::Dissector => 1,
        PluginType::FileType => 2,
        PluginType::Codec => 4,
        PluginType::Epan => 8,
        PluginType::TapListener => 16,
        PluginType::DFilter => 32,
    }
}

impl PluginType {
    /// The WS_PLUGIN_DESC_* flag of this plugin kind.
    pub fn to_constant(&self) -> (code: u32)
        ensures
            code == plugin_type_code(*self),
    {
        match self {
            PluginType::Dissector => 1,
            PluginType::FileType => 2,
            PluginType::Codec => 4,
            PluginType::Epan => 8,
            PluginType::TapListener => 16,
            PluginType::DFilter => 32,
        }
    }
}

pub type WiresharkResult<T> = Result<T, WiresharkError>;

pub type DissectorResult<T> = Result<T, DissectorError>;

pub type TreeResult<T> = Result<T, TreeError>;

/// Any error of the library.
#[derive(Debug)]
pub enum WiresharkError {
    RegistrationError(RegistrationError),
    DissectorError(DissectorError),
    ExpertError(ExpertError),
    TreeError(TreeError),
}

/// Errors while building or registering a protocol.
#[derive(Debug)]
pub enum RegistrationError {
    RegistrationFailed,
    MissingDissector,
    MissingFieldType,
    InvalidFieldName(String),
    /// A string handed to Wireshark held a NUL byte at this position.
    CStringError(usize),
}

/// Errors raised by dissection code.
#[derive(Debug)]
pub enum DissectorError {
    TvbError(TvbError),
    FieldNotFound(String),
    InvalidPacketData,
}

/// Errors while adding to the protocol tree.
#[derive(Debug)]
pub enum TreeError {
    AddItemFailed(String),
    InvalidSubtreeOperation(String),
    EttNotFound(String),
}

/// Errors while reading packet bytes.
#[derive(Debug, Clone, Copy, PartialEq, Eq, Structural)]
pub enum TvbError {
    OutOfBounds,
    InvalidRange,
    InvalidLength { expected: i32, actual: i32 },
    InvalidEncoding,
    SubsetFailed,
}

/// Errors while adding expert info.
#[derive(Debug)]
pub enum ExpertError {
    FieldNotFound(String),
    AddFailed,
}

/// Errors reported by a called dissector.
#[derive(Debug, Clone, Copy, PartialEq, Eq, Structural)]
pub enum DissectorHandleError {
    Disabled,
    Unspecified(i32),
}

/// Errors while resolving the names of a protocol's reassembly fields.
#[derive(Debug, Clone, Copy, PartialEq, Eq, Structural)]
pub enum FragmentItemsError {
    MissingEtt,
    MissingField,
    UndefinedEtt,
}

/// Errors while reading an address.
#[derive(Debug)]
pub enum AddressError {
    InvalidLength(TryFromIntError),
    CopyFailed,
}

impl From<RegistrationError> for WiresharkError {
    fn from(e: RegistrationError) -> (r: Self) {
        WiresharkError::RegistrationError(e)
    }
}

impl vstd::std_specs::convert::FromSpecImpl<RegistrationError> for WiresharkError {
    open spec fn obeys_from_spec() -> bool {
        true
    }

    open spec fn from_spec(v: RegistrationError) -> Self {
        WiresharkError::RegistrationError(v)
    }
}

impl From<DissectorError> for WiresharkError {
    fn from(e: DissectorError) -> (r: Self) {
        WiresharkError::DissectorError(e)
    }
}

impl vstd::std_specs::convert::FromSpecImpl<DissectorError> for WiresharkError {
    open spec fn obeys_from_spec() -> bool {
        true
    }

    open spec fn from_spec(v: DissectorError) -> Self {
        WiresharkError::DissectorError(v)
    }
}

impl From<ExpertError> for WiresharkError {
    fn from(e: ExpertError) -> (r: Self) {
        WiresharkError::ExpertError(e)
    }
}

impl vstd::std_specs::convert::FromSpecImpl<ExpertError> for WiresharkError {
    open spec fn obeys_from_spec() -> bool {
        true
    }

    open spec fn from_spec(v: ExpertError) -> Self {
        WiresharkError::ExpertError(v)
    }
}

impl From<TreeError> for WiresharkError {
    fn from(e: TreeError) -> (r: Self) {
        WiresharkError::TreeError(e)
    }
}

impl vstd::std_specs::convert::FromSpecImpl<TreeError> for WiresharkError {
    open spec fn obeys_from_spec() -> bool {
        true
    }

    open spec fn from_spec(v: TreeError) -> Self {
        WiresharkError::TreeError(v)
    }
}

impl From<TvbError> for DissectorError {
    fn from(e: TvbError) -> (r: Self) {
        DissectorError::TvbError(e)
    }
}

impl vstd::std_specs::convert::FromSpecImpl<TvbError> for DissectorError {
    open spec fn obeys_from_spec() -> bool {
        true
    }

    open spec fn from_spec(v: TvbError) -> Self {
        DissectorError::TvbError(v)
    }
}

impl From<TryFromIntError> for AddressError {
    fn from(e: TryFromIntError) -> (r: Self) {
        AddressError::InvalidLength(e)
    }
}

impl vstd::std_specs::convert::FromSpecImpl<TryFromIntError> for AddressError {
    open spec fn obeys_from_spec() -> bool {
        true
    }

    open spec fn from_spec(v: TryFromIntError) -> Self {
        AddressError::InvalidLength(v)
    }
}

/// The field type that Wireshark's ftypes.h numbers `c` (its `ftenum`), if any.
pub open spec fn field_type_numbered(c: u32) -> Option<FieldType> {
    if c == 0 {
        Some(FieldType::FtNone)
    } else if c == 1 {
        Some(FieldType::Protocol)
    } else if c == 2 {
        Some(FieldType::Boolean)
    } else if c == 3 {
        Some(FieldType::Char)
    } else if c == 4 {
        Some(FieldType::Uint8)
    } else if c == 5 {
        Some(FieldType::Uint16)
    } else if c == 6 {
        Some(FieldType::Uint24)
    } else if c == 7 {
        Some(FieldType::Uint32)
    } else if c == 8 {
        Some(FieldType::Uint40)
    } else if c == 9 {
        Some(FieldType::Uint48)
    } else if c == 10 {
        Some(FieldType::Uint56)
    } else if c == 11 {
        Some(FieldType::Uint64)
    } else if c == 12 {
        Some(FieldType::Int8)
    } else if c == 13 {
        Some(FieldType::Int16)
    } else if c == 14 {
        Some(FieldType::Int24)
    } else if c == 15 {
        Some(FieldType::Int32)
    } else if c == 16 {
        Some(FieldType::Int40)
    } else if c == 17 {
        Some(FieldType::Int48)
    } else if c == 18 {
        Some(FieldType::Int56)
    } else if c == 19 {
        Some(FieldType::Int64)
    } else if c == 20 {
        Some(FieldType::IEEE_11073_SFLOAT)
    } else if c == 21 {
        Some(FieldType::IEEE_11073_FLOAT)
    } else if c == 22 {
        Some(FieldType::Float)
    } else if c == 23 {
        Some(FieldType::Double)
    } else if c == 24 {
        Some(FieldType::AbsoluteTime)
    } else if c == 25 {
        Some(FieldType::RelativeTime)
    } else if c == 26 {
        Some(FieldType::String)
    } else if c == 27 {
        Some(FieldType::Stringz)
    } else if c == 28 {
        Some(FieldType::UintString)
    } else if c == 29 {
        Some(FieldType::Ether)
    } else if c == 30 {
        Some(FieldType::Bytes)
    } else if c == 31 {
        Some(FieldType::UintBytes)
    } else if c == 32 {
        Some(FieldType::IPv4)
    } else if c == 33 {
        Some(FieldType::IPv6)
    } else if c == 34 {
        Some(FieldType::IPXNET)
    } else if c == 35 {
        Some(FieldType::Framenum)
    } else if c == 36 {
        Some(FieldType::Guid)
    } else if c == 37 {
        Some(FieldType::Oid)
    } else if c == 38 {
        Some(FieldType::EUI64)
    } else if c == 39 {
        Some(FieldType::Ax25)
    } else if c == 40 {
        Some(FieldType::Vines)
    } else if c == 41 {
        Some(FieldType::RelOid)
    } else if c == 42 {
        Some(FieldType::SystemId)
    } else if c == 43 {
        Some(FieldType::StringzPad)
    } else if c == 44 {
        Some(FieldType::Fcwwn)
    } else if c == 45 {
        Some(FieldType::StringzTrunc)
    } else if c == 47 {
        Some(FieldType::Scalar)
    } else {
        None
    }
}

/// Each field type is registered under its own ftypes.h number: the number names that type
/// back, so no two field types are registered alike.
pub proof fn lemma_field_type_codes_identify(t: FieldType, u: FieldType)
    ensures
        field_type_numbered(field_type_code(t)) == Some(t),
        field_type_code(t) == field_type_code(u) ==> t == u,
{
}

/// The expert group that proto.h numbers `c` (its PI_* group value), if any.
pub open spec fn expert_group_numbered(c: u32) -> Option<ExpertGroup> {
    if c == 0x01000000 {
        Some(ExpertGroup::Checksum)
    } else if c == 0x02000000 {
        Some(ExpertGroup::Sequence)
    } else if c == 0x03000000 {
        Some(ExpertGroup::ResponseCode)
    } else if c == 0x04000000 {
        Some(ExpertGroup::RequestCode)
    } else if c == 0x05000000 {
        Some(ExpertGroup::Undecoded)
    } else if c == 0x06000000 {
        Some(ExpertGroup::Reassemble)
    } else if c == 0x07000000 {
        Some(ExpertGroup::Malformed)
    } else if c == 0x08000000 {
        Some(ExpertGroup::Debug)
    } else if c == 0x09000000 {
        Some(ExpertGroup::Protocol)
    } else if c == 0x0a000000 {
        Some(ExpertGroup::Security)
    } else if c == 0x0b000000 {
        Some(ExpertGroup::CommentsGroup)
    } else if c == 0x0c000000 {
        Some(ExpertGroup::Decryption)
    } else if c == 0x0d000000 {
        Some(ExpertGroup::Assumption)
    } else if c == 0x0e000000 {
        Some(ExpertGroup::Deprecated)
    } else if c == 0x0f000000 {
        Some(ExpertGroup::Receive)
    } else if c == 0x10000000 {
        Some(ExpertGroup::Interface)
    } else if c == 0x11000000 {
        Some(ExpertGroup::DissectorBug)
    } else {
        None
    }
}

/// Each expert group is registered under its own PI_* group value: the value names that group
/// back, so no two groups are registered alike.
pub proof fn lemma_expert_group_codes_identify(g: ExpertGroup, h: ExpertGroup)
    ensures
        expert_group_numbered(expert_group_code(g)) == Some(g),
        expert_group_code(g) == expert_group_code(h) ==> g == h,
{
}

/// The expert severity that proto.h numbers `c` (its PI_* severity value), if any.
pub open spec fn expert_severity_numbered(c: u32) -> Option<ExpertSeverity> {
    if c == 0x00100000 {
        Some(ExpertSeverity::Comment)
    } else if c == 0x00200000 {
        Some(ExpertSeverity::Chat)
    } else if c == 0x00400000 {
        Some(ExpertSeverity::Note)
    } else if c == 0x00600000 {
        Some(ExpertSeverity::Warn)
    } else if c == 0x00800000 {
        Some(ExpertSeverity::Error)
    } else {
        None
    }
}

/// Each severity is registered under its own PI_* severity value, and more severe entries get
/// larger values.
pub proof fn lemma_expert_severity_codes_identify(s: ExpertSeverity, t: ExpertSeverity)
    ensures
        expert_severity_numbered(expert_severity_code(s)) == Some(s),
        expert_severity_code(s) == expert_severity_code(t) ==> s == t,
        expert_severity_code(ExpertSeverity::Comment) < expert_severity_code(ExpertSeverity::Chat),
        expert_severity_code(ExpertSeverity::Chat) < expert_severity_code(ExpertSeverity::Note),
        expert_severity_code(ExpertSeverity::Note) < expert_severity_code(ExpertSeverity::Warn),
        expert_severity_code(ExpertSeverity::Warn) < expert_severity_code(ExpertSeverity::Error),
{
}

/// The frame-number purpose that Wireshark numbers `c` (its `ft_framenum_type_t`), if any.
pub open spec fn framenum_numbered(c: u32) -> Option<Framenum> {
    if c == 0 {
        Some(Framenum::FramenumNone)
    } else if c == 1 {
        Some(Framenum::Request)
    } else if c == 2 {
        Some(Framenum::Response)
    } else if c == 3 {
        Some(Framenum::Ack)
    } else if c == 4 {
        Some(Framenum::DupAck)
    } else if c == 5 {
        Some(Framenum::RetransPrev)
    } else if c == 6 {
        Some(Framenum::RetransNext)
    } else if c == 7 {
        Some(Framenum::NumTypes)
    } else {
        None
    }
}

/// Each frame-number purpose has its own number, so no two are handed over alike.
pub proof fn lemma_framenum_codes_identify(f: Framenum, g: Framenum)
    ensures
        framenum_numbered(framenum_code(f)) == Some(f),
        framenum_code(f) == framenum_code(g) ==> f == g,
{
}

/// The plugin kind whose WS_PLUGIN_DESC_* flag is `c`, if any.
pub open spec fn plugin_type_numbered(c: u32) -> Option<PluginType> {
    if c == 1 {
        Some(PluginType::Dissector)
    } else if c == 2 {
        Some(PluginType::FileType)
    } else if c == 4 {
        Some(PluginType::Codec)
    } else if c == 8 {
        Some(PluginType::Epan)
    } else if c == 16 {
        Some(PluginType::TapListener)
    } else if c == 32 {
        Some(PluginType::DFilter)
    } else {
        None
    }
}

/// Each plugin kind has its own flag, a single bit, so kinds can be combined and told apart.
pub proof fn lemma_plugin_type_codes_identify(p: PluginType, q: PluginType)
    ensures
        plugin_type_numbered(plugin_type_code(p)) == Some(p),
        plugin_type_code(p) == plugin_type_code(q) ==> p == q,
        plugin_type_code(p) == 1 || plugin_type_code(p) == 2 || plugin_type_code(p) == 4
            || plugin_type_code(p) == 8 || plugin_type_code(p) == 16 || plugin_type_code(p) == 32,
{
}

/// The display that proto.h numbers `c` (its `field_display_e`), if any; boolean widths are not among them.
pub open spec fn field_display_numbered(c: u32) -> Option<FieldDisplay> {
    if c == 0 {
        Some(FieldDisplay::BaseNone)
    } else if c == 1 {
        Some(FieldDisplay::BaseDec)
    } else if c == 2 {
        Some(FieldDisplay::BaseHex)
    } else if c == 3 {
        Some(FieldDisplay::BaseOct)
    } else if c == 4 {
        Some(FieldDisplay::BaseDecHex)
    } else if c == 5 {
        Some(FieldDisplay::BaseHexDec)
    } else if c == 6 {
        Some(FieldDisplay::BaseCustom)
    } else if c == 7 {
        Some(FieldDisplay::BaseExp)
    } else if c == 8 {
        Some(FieldDisplay::SepDot)
    } else if c == 9 {
        Some(FieldDisplay::SepDash)
    } else if c == 10 {
        Some(FieldDisplay::SepColon)
    } else if c == 11 {
        Some(FieldDisplay::SepSpace)
    } else if c == 12 {
        Some(FieldDisplay::BaseNetmask)
    } else if c == 13 {
        Some(FieldDisplay::BasePtUdp)
    } else if c == 14 {
        Some(FieldDisplay::BasePtTcp)
    } else if c == 15 {
        Some(FieldDisplay::BasePtDccp)
    } else if c == 16 {
        Some(FieldDisplay::BasePtSctp)
    } else if c == 17 {
        Some(FieldDisplay::BaseOui)
    } else if c == 18 {
        Some(FieldDisplay::AbsoluteTimeLocal)
    } else if c == 19 {
        Some(FieldDisplay::AbsoluteTimeUtc)
    } else if c == 20 {
        Some(FieldDisplay::AbsoluteTimeDoyUtc)
    } else if c == 21 {
        Some(FieldDisplay::AbsoluteTimeNtpUtc)
    } else if c == 22 {
        Some(FieldDisplay::AbsoluteTimeUnix)
    } else if c == 23 {
        Some(FieldDisplay::BaseStrWsp)
    } else {
        None
    }
}

/// Each display other than a boolean width has its own `field_display_e` number, and a boolean
/// field's display is handed over as its bit width.
pub proof fn lemma_field_display_codes_identify(d: FieldDisplay, e: FieldDisplay)
    ensures
        !(d is Boolean) ==> field_display_numbered(field_display_code(d)) == Some(d),
        !(d is Boolean) && !(e is Boolean) && field_display_code(d) == field_display_code(e) ==> d
            == e,
        d matches FieldDisplay::Boolean(w) ==> field_display_code(d) == w,
{
}

/// The character encodings: the ENC_* values that name how text is stored.
pub open spec fn is_char_encoding(e: Encoding) -> bool {
    e is UTF8
        || e is UTF16
        || e is UCS2
        || e is UCS4
        || e is ISO8859_1
        || e is ISO8859_2
        || e is ISO8859_3
        || e is ISO8859_4
        || e is ISO8859_5
        || e is ISO8859_6
        || e is ISO8859_7
        || e is ISO8859_8
        || e is ISO8859_9
        || e is ISO8859_10
        || e is ISO8859_11
        || e is ISO8859_13
        || e is ISO8859_14
        || e is ISO8859_15
        || e is ISO8859_16
        || e is Windows1250
        || e is Windows1252
        || e is Windows1251
        || e is CP437
        || e is ASCII7Bits
        || e is T61
        || e is EBCDIC_CP037
        || e is CP855
        || e is CP866
        || e is ISO646Basic
        || e is BCDDigits0_9
        || e is KeypadABC_TBCD
        || e is KeypadBC_TBCD
        || e is GpppTS23_038_7BitsPacked
        || e is GpppTS23_038_7Bits
        || e is ETSITS102221AnnexA
        || e is GB18030
        || e is EUCKR
        || e is APNStr
        || e is DECTStandard8Bits
        || e is DECTStandard4BitsTBCD
        || e is EBCDIC_CP500
}

/// The character encoding that proto.h numbers `c`, if any; the unpacked 3GPP 7-bit alphabet shares the number of the packed one, as in proto.h.
pub open spec fn char_encoding_numbered(c: u32) -> Option<Encoding> {
    if c == 2 {
        Some(Encoding::UTF8)
    } else if c == 4 {
        Some(Encoding::UTF16)
    } else if c == 6 {
        Some(Encoding::UCS2)
    } else if c == 8 {
        Some(Encoding::UCS4)
    } else if c == 10 {
        Some(Encoding::ISO8859_1)
    } else if c == 12 {
        Some(Encoding::ISO8859_2)
    } else if c == 14 {
        Some(Encoding::ISO8859_3)
    } else if c == 16 {
        Some(Encoding::ISO8859_4)
    } else if c == 18 {
        Some(Encoding::ISO8859_5)
    } else if c == 20 {
        Some(Encoding::ISO8859_6)
    } else if c == 22 {
        Some(Encoding::ISO8859_7)
    } else if c == 24 {
        Some(Encoding::ISO8859_8)
    } else if c == 26 {
        Some(Encoding::ISO8859_9)
    } else if c == 28 {
        Some(Encoding::ISO8859_10)
    } else if c == 30 {
        Some(Encoding::ISO8859_11)
    } else if c == 34 {
        Some(Encoding::ISO8859_13)
    } else if c == 36 {
        Some(Encoding::ISO8859_14)
    } else if c == 38 {
        Some(Encoding::ISO8859_15)
    } else if c == 40 {
        Some(Encoding::ISO8859_16)
    } else if c == 42 {
        Some(Encoding::Windows1250)
    } else if c == 58 {
        Some(Encoding::Windows1252)
    } else if c == 60 {
        Some(Encoding::Windows1251)
    } else if c == 50 {
        Some(Encoding::CP437)
    } else if c == 52 {
        Some(Encoding::ASCII7Bits)
    } else if c == 54 {
        Some(Encoding::T61)
    } else if c == 56 {
        Some(Encoding::EBCDIC_CP037)
    } else if c == 62 {
        Some(Encoding::CP855)
    } else if c == 64 {
        Some(Encoding::CP866)
    } else if c == 66 {
        Some(Encoding::ISO646Basic)
    } else if c == 68 {
        Some(Encoding::BCDDigits0_9)
    } else if c == 70 {
        Some(Encoding::KeypadABC_TBCD)
    } else if c == 72 {
        Some(Encoding::KeypadBC_TBCD)
    } else if c == 44 {
        Some(Encoding::GpppTS23_038_7BitsPacked)
    } else if c == 78 {
        Some(Encoding::ETSITS102221AnnexA)
    } else if c == 80 {
        Some(Encoding::GB18030)
    } else if c == 82 {
        Some(Encoding::EUCKR)
    } else if c == 84 {
        Some(Encoding::APNStr)
    } else if c == 86 {
        Some(Encoding::DECTStandard8Bits)
    } else if c == 88 {
        Some(Encoding::DECTStandard4BitsTBCD)
    } else if c == 96 {
        Some(Encoding::EBCDIC_CP500)
    } else {
        None
    }
}

/// The byte order of an encoding is its top bit, ENC_LITTLE_ENDIAN: set exactly for the
/// little-endian orders (the host being little-endian), clear for big-endian and for ENC_NA,
/// which are both 0, so items added without an encoding are read big-endian.
pub proof fn lemma_encoding_byte_order(e: Encoding)
    ensures
        encoding_code(e) >= 0x80000000 <==> (e is LittleEndian || e is HostEndian),
        encoding_code(Encoding::LittleEndian) == 0x80000000,
        encoding_code(Encoding::HostEndian) == 0x80000000,
        encoding_code(Encoding::NA) == 0,
        encoding_code(Encoding::BigEndian) == 0,
        encoding_code(Encoding::AntiHostEndian) == 0,
{
}

/// Each character encoding has its own ENC_* number, except that the unpacked 3GPP 7-bit
/// alphabet is the packed one's number; character encodings never set the byte-order bit.
pub proof fn lemma_char_encoding_codes_identify(e: Encoding, f: Encoding)
    requires
        is_char_encoding(e),
        is_char_encoding(f),
    ensures
        !(e is GpppTS23_038_7Bits) ==> char_encoding_numbered(encoding_code(e)) == Some(e),
        encoding_code(Encoding::GpppTS23_038_7Bits) == encoding_code(
            Encoding::GpppTS23_038_7BitsPacked,
        ),
        !(e is GpppTS23_038_7Bits) && !(f is GpppTS23_038_7Bits) && encoding_code(e)
            == encoding_code(f) ==> e == f,
        0 < encoding_code(e) < 0x100,
{
}

/// Whether `e` is among the encodings of numbers written as text, and their separators.
pub open spec fn is_string_number_encoding(e: Encoding) -> bool {
    e is StrNum
        || e is StrHex
        || e is String
        || e is StrMask
        || e is NumPref
        || e is SepNone
        || e is SepColon
        || e is SepDash
        || e is SepDot
        || e is SepSpace
        || e is SepMask
}

/// The name proto.h gives first to an encoding among the encodings of numbers written as text, and their separators; later names of the same value
/// stand for it.
pub open spec fn string_number_encoding_canonical(e: Encoding) -> Encoding {
    e
}

/// The encoding among the encodings of numbers written as text, and their separators that proto.h numbers `c`, if any.
pub open spec fn string_number_encoding_numbered(c: u32) -> Option<Encoding> {
    if c == 0x1000000 {
        Some(Encoding::StrNum)
    } else if c == 0x2000000 {
        Some(Encoding::StrHex)
    } else if c == 0x3000000 {
        Some(Encoding::String)
    } else if c == 0xfffe {
        Some(Encoding::StrMask)
    } else if c == 0x200000 {
        Some(Encoding::NumPref)
    } else if c == 0x10000 {
        Some(Encoding::SepNone)
    } else if c == 0x20000 {
        Some(Encoding::SepColon)
    } else if c == 0x40000 {
        Some(Encoding::SepDash)
    } else if c == 0x80000 {
        Some(Encoding::SepDot)
    } else if c == 0x100000 {
        Some(Encoding::SepSpace)
    } else if c == 0x1f0000 {
        Some(Encoding::SepMask)
    } else {
        None
    }
}

/// Whether `e` is among the options of BCD-coded digits.
pub open spec fn is_bcd_encoding(e: Encoding) -> bool {
    e is BCDOddNumDig
        || e is BCDSkipFirst
}

/// The name proto.h gives first to an encoding among the options of BCD-coded digits; later names of the same value
/// stand for it.
pub open spec fn bcd_encoding_canonical(e: Encoding) -> Encoding {
    e
}

/// The encoding among the options of BCD-coded digits that proto.h numbers `c`, if any.
pub open spec fn bcd_encoding_numbered(c: u32) -> Option<Encoding> {
    if c == 0x10000 {
        Some(Encoding::BCDOddNumDig)
    } else if c == 0x20000 {
        Some(Encoding::BCDSkipFirst)
    } else {
        None
    }
}

/// Whether `e` is among the encodings of times written as text.
pub open spec fn is_text_time_encoding(e: Encoding) -> bool {
    e is ISO8601Date
        || e is ISO8601Time
        || e is ISO8601DateTime
        || e is IMFDateTime
        || e is RFC822
        || e is RFC1123
        || e is ISO8601DateTimeBasic
        || e is StrTimeMask
}

/// The name proto.h gives first to an encoding among the encodings of times written as text; later names of the same value
/// stand for it.
pub open spec fn text_time_encoding_canonical(e: Encoding) -> Encoding {
    if e is RFC822 {
        Encoding::IMFDateTime
    } else if e is RFC1123 {
        Encoding::IMFDateTime
    } else {
        e
    }
}

/// The encoding among the encodings of times written as text that proto.h numbers `c`, if any.
pub open spec fn text_time_encoding_numbered(c: u32) -> Option<Encoding> {
    if c == 0x10000 {
        Some(Encoding::ISO8601Date)
    } else if c == 0x20000 {
        Some(Encoding::ISO8601Time)
    } else if c == 0x30000 {
        Some(Encoding::ISO8601DateTime)
    } else if c == 0x40000 {
        Some(Encoding::IMFDateTime)
    } else if c == 0x100000 {
        Some(Encoding::ISO8601DateTimeBasic)
    } else if c == 0x1f0000 {
        Some(Encoding::StrTimeMask)
    } else {
        None
    }
}

/// Whether `e` is among the encodings of binary times.
pub open spec fn is_time_encoding(e: Encoding) -> bool {
    e is TimeSecsNsecs
        || e is TimeTimespec
        || e is TimeNTP
        || e is TimeTOD
        || e is TimeRTPS
        || e is TimeNTPBaseZero
        || e is TimeSecsUsecs
        || e is TimeTimeval
        || e is TimeSecs
        || e is TimeMsecs
        || e is TimeSecsNTP
        || e is TimeRFC3971
        || e is TimeMsecNTP
        || e is TimeMip6
        || e is TimeMp4FileSecs
        || e is TimeClassicMacOSSecs
        || e is TimeNsecs
        || e is TimeUsecs
        || e is TimeZBeeZCL
}

/// The name proto.h gives first to an encoding among the encodings of binary times; later names of the same value
/// stand for it.
pub open spec fn time_encoding_canonical(e: Encoding) -> Encoding {
    if e is TimeTimespec {
        Encoding::TimeSecsNsecs
    } else if e is TimeNTPBaseZero {
        Encoding::TimeRTPS
    } else if e is TimeTimeval {
        Encoding::TimeSecsUsecs
    } else if e is TimeClassicMacOSSecs {
        Encoding::TimeMp4FileSecs
    } else {
        e
    }
}

/// The encoding among the encodings of binary times that proto.h numbers `c`, if any.
pub open spec fn time_encoding_numbered(c: u32) -> Option<Encoding> {
    if c == 0x0 {
        Some(Encoding::TimeSecsNsecs)
    } else if c == 0x2 {
        Some(Encoding::TimeNTP)
    } else if c == 0x4 {
        Some(Encoding::TimeTOD)
    } else if c == 0x8 {
        Some(Encoding::TimeRTPS)
    } else if c == 0x10 {
        Some(Encoding::TimeSecsUsecs)
    } else if c == 0x12 {
        Some(Encoding::TimeSecs)
    } else if c == 0x14 {
        Some(Encoding::TimeMsecs)
    } else if c == 0x18 {
        Some(Encoding::TimeSecsNTP)
    } else if c == 0x20 {
        Some(Encoding::TimeRFC3971)
    } else if c == 0x22 {
        Some(Encoding::TimeMsecNTP)
    } else if c == 0x24 {
        Some(Encoding::TimeMip6)
    } else if c == 0x26 {
        Some(Encoding::TimeMp4FileSecs)
    } else if c == 0x28 {
        Some(Encoding::TimeNsecs)
    } else if c == 0x30 {
        Some(Encoding::TimeUsecs)
    } else if c == 0x32 {
        Some(Encoding::TimeZBeeZCL)
    } else {
        None
    }
}

/// Whether `e` is among the encodings of variable-length integers.
pub open spec fn is_varint_encoding(e: Encoding) -> bool {
    e is VarintProtobuf
        || e is VarintQUIC
        || e is VarintZigzag
        || e is VarintSDNV
        || e is VarintMask
}

/// The name proto.h gives first to an encoding among the encodings of variable-length integers; later names of the same value
/// stand for it.
pub open spec fn varint_encoding_canonical(e: Encoding) -> Encoding {
    e
}

/// The encoding among the encodings of variable-length integers that proto.h numbers `c`, if any.
pub open spec fn varint_encoding_numbered(c: u32) -> Option<Encoding> {
    if c == 0x2 {
        Some(Encoding::VarintProtobuf)
    } else if c == 0x4 {
        Some(Encoding::VarintQUIC)
    } else if c == 0x8 {
        Some(Encoding::VarintZigzag)
    } else if c == 0x10 {
        Some(Encoding::VarintSDNV)
    } else if c == 0x1e {
        Some(Encoding::VarintMask)
    } else {
        None
    }
}

/// Within each family of ENC_* options, every encoding has its own value, apart from the names
/// that proto.h defines as another name of the same value.
pub proof fn lemma_encoding_options_identify(e: Encoding)
    ensures
        is_string_number_encoding(e) ==> string_number_encoding_numbered(encoding_code(e)) == Some(string_number_encoding_canonical(e)),
        is_bcd_encoding(e) ==> bcd_encoding_numbered(encoding_code(e)) == Some(bcd_encoding_canonical(e)),
        is_text_time_encoding(e) ==> text_time_encoding_numbered(encoding_code(e)) == Some(text_time_encoding_canonical(e)),
        is_time_encoding(e) ==> time_encoding_numbered(encoding_code(e)) == Some(time_encoding_canonical(e)),
        is_varint_encoding(e) ==> varint_encoding_numbered(encoding_code(e)) == Some(varint_encoding_canonical(e)),
        encoding_code(Encoding::Zigbee) == 0x40000000,
        encoding_code(Encoding::BOM) == 0x20000000,
{
}

} // verus!
