use crate::handles::{insert_all, lookup, HandleTable};
use crate::types::{
    encoding_code, expert_group_code, expert_severity_code, field_display_code, field_type_code,
    framenum_code, to_c_str, DissectorDecodeFrom, ExpertGroup, ExpertSeverity, FieldDisplay,
    FieldType, Framenum, RegistrationError,
};
use std::ops::RangeInclusive;
use vstd::prelude::*;
use vstd::string::StringExecFns;
use vstd::utf8::encode_utf8;

verus! {

/// The NUL-terminated UTF-8 bytes of a text, as `to_c_str` writes them.
pub open spec fn c_string(s: Seq<char>) -> Seq<u8> {
    encode_utf8(s).push(0u8)
}

/// Name of the subtree type that every protocol has for its own root item.
pub const ROOT_ETT_ID: &'static str = "_root";

/// `RangeInclusive::start`: the lower bound of the range.
#[verifier::external_body]
fn range_start(r: &RangeInclusive<u64>) -> (v: u64)
    ensures
        v == r@.start,
{
    *r.start()
}

/// `RangeInclusive::end`: the upper bound of the range.
#[verifier::external_body]
fn range_end(r: &RangeInclusive<u64>) -> (v: u64)
    ensures
        v == r@.end,
{
    *r.end()
}

/// A copy of `s`.
pub(crate) fn owned(s: &str) -> (r: String)
    ensures
        r@ == s@,
{
    s.to_owned()
}

/// Additional data used to customize the description of a field's value.
///
/// The variant used depends on the field's [`FieldType`].
pub enum FieldConvert {
    /// For frame-number fields: what the referenced frame is to the current one.
    Framenum(Framenum),
    /// For protocol fields: the handle of the protocol.
    Protocol(i32),
    /// Labels for ranges of values, tried in order.
    RangeStrings(Vec<RangeString>),
    /// Labels for the two values of a boolean field.
    TrueFalseString(TrueFalseString),
    /// Labels for individual 32-bit values.
    ValueStrings(Vec<ValueString>),
    /// Labels for individual 64-bit values.
    Val64Strings(Vec<Val64String>),
}

/// Maps a range of `u64` values to a label.
pub struct RangeString {
    pub range: RangeInclusive<u64>,
    pub label: String,
}

/// Maps the values `true` and `false` to labels.
pub struct TrueFalseString {
    pub true_string: &'static str,
    pub false_string: &'static str,
}

/// Maps a `u32` value to a label.
pub struct ValueString {
    pub value: u32,
    pub label: String,
}

/// Maps a `u64` value to a label.
pub struct Val64String {
    pub value: u64,
    pub label: String,
}

/// One entry of a range table as Wireshark reads it; the closing entry has no label.
pub struct RangeStringEntry {
    pub value_min: u64,
    pub value_max: u64,
    pub label: Option<Vec<u8>>,
}

/// The two labels of a boolean field as Wireshark reads them.
pub struct TrueFalseEntry {
    pub true_string: Vec<u8>,
    pub false_string: Vec<u8>,
}

/// One entry of a 32-bit value table as Wireshark reads it; the closing entry has no label.
pub struct ValueStringEntry {
    pub value: u32,
    pub label: Option<Vec<u8>>,
}

/// One entry of a 64-bit value table as Wireshark reads it; the closing entry has no label.
pub struct Val64StringEntry {
    pub value: u64,
    pub label: Option<Vec<u8>>,
}

impl RangeString {
    /// The table entry of this range: its bounds and its label as a C string.
    pub fn entry(&self) -> (e: RangeStringEntry)
        ensures
            e.value_min == self.range@.start,
            e.value_max == self.range@.end,
            e.label matches Some(l) && l@ == c_string(self.label@),
    {
        RangeStringEntry {
            value_min: range_start(&self.range),
            value_max: range_end(&self.range),
            label: Some(to_c_str(self.label.as_str())),
        }
    }
}

impl TrueFalseString {
    /// The labels as C strings.
    pub fn entry(&self) -> (e: TrueFalseEntry)
        ensures
            e.true_string@ == c_string(self.true_string@),
            e.false_string@ == c_string(self.false_string@),
    {
        TrueFalseEntry {
            true_string: to_c_str(self.true_string),
            false_string: to_c_str(self.false_string),
        }
    }
}

impl ValueString {
    /// The table entry of this value: the value and its label as a C string.
    pub fn entry(&self) -> (e: ValueStringEntry)
        ensures
            e.value == self.value,
            e.label matches Some(l) && l@ == c_string(self.label@),
    {
        ValueStringEntry { value: self.value, label: Some(to_c_str(self.label.as_str())) }
    }
}

impl Val64String {
    /// The table entry of this value: the value and its label as a C string.
    pub fn entry(&self) -> (e: Val64StringEntry)
        ensures
            e.value == self.value,
            e.label matches Some(l) && l@ == c_string(self.label@),
    {
        Val64StringEntry { value: self.value, label: Some(to_c_str(self.label.as_str())) }
    }
}

/// What Wireshark is handed to describe a field's values. Tables of labels end with one
/// entry whose numbers are zero and whose label is absent.
pub enum FieldStrings {
    NoStrings,
    Framenum(u32),
    Protocol(i32),
    RangeStrings(Vec<RangeStringEntry>),
    TrueFalse(TrueFalseEntry),
    ValueStrings(Vec<ValueStringEntry>),
    Val64Strings(Vec<Val64StringEntry>),
}

/// `t` describes the values as `convert` asks, each label being the C string of its text.
pub open spec fn strings_match(convert: Option<FieldConvert>, t: FieldStrings) -> bool {
    match convert {
        None => t is NoStrings,
        Some(FieldConvert::Framenum(f)) => t == FieldStrings::Framenum(framenum_code(f)),
        Some(FieldConvert::Protocol(p)) => t == FieldStrings::Protocol(p),
        Some(FieldConvert::RangeStrings(v)) => match t {
            FieldStrings::RangeStrings(es) => {
                &&& es.len() == v.len() + 1
                &&& forall|i: int|
                    0 <= i < v.len() ==> {
                        &&& (#[trigger] es@[i]).value_min == v@[i].range@.start
                        &&& es@[i].value_max == v@[i].range@.end
                        &&& es@[i].label matches Some(l) && l@ == c_string(v@[i].label@)
                    }
                &&& es@[v.len() as int].value_min == 0
                &&& es@[v.len() as int].value_max == 0
                &&& es@[v.len() as int].label is None
            },
            _ => false,
        },
        Some(FieldConvert::TrueFalseString(tf)) => match t {
            FieldStrings::TrueFalse(e) => {
                &&& e.true_string@ == c_string(tf.true_string@)
                &&& e.false_string@ == c_string(tf.false_string@)
            },
            _ => false,
        },
        Some(FieldConvert::ValueStrings(v)) => match t {
            FieldStrings::ValueStrings(es) => {
                &&& es.len() == v.len() + 1
                &&& forall|i: int|
                    0 <= i < v.len() ==> {
                        &&& (#[trigger] es@[i]).value == v@[i].value
                        &&& es@[i].label matches Some(l) && l@ == c_string(v@[i].label@)
                    }
                &&& es@[v.len() as int].value == 0
                &&& es@[v.len() as int].label is None
            },
            _ => false,
        },
        Some(FieldConvert::Val64Strings(v)) => match t {
            FieldStrings::Val64Strings(es) => {
                &&& es.len() == v.len() + 1
                &&& forall|i: int|
                    0 <= i < v.len() ==> {
                        &&& (#[trigger] es@[i]).value == v@[i].value
                        &&& es@[i].label matches Some(l) && l@ == c_string(v@[i].label@)
                    }
                &&& es@[v.len() as int].value == 0
                &&& es@[v.len() as int].label is None
            },
            _ => false,
        },
    }
}

fn range_table(v: &Vec<RangeString>) -> (es: Vec<RangeStringEntry>)
    requires
        v.len() < usize::MAX,
    ensures
        strings_match(
            Some(FieldConvert::RangeStrings(*v)),
            FieldStrings::RangeStrings(es),
        ),
{
    let mut es: Vec<RangeStringEntry> = Vec::new();
    let mut i: usize = 0;
    while i < v.len()
        invariant
            0 <= i <= v.len(),
            es.len() == i,
            forall|j: int|
                0 <= j < i ==> {
                    &&& (#[trigger] es@[j]).value_min == v@[j].range@.start
                    &&& es@[j].value_max == v@[j].range@.end
                    &&& es@[j].label matches Some(l) && l@ == c_string(v@[j].label@)
                },
        decreases v.len() - i,
    {
        es.push(v[i].entry());
        i = i + 1;
    }
    es.push(RangeStringEntry { value_min: 0, value_max: 0, label: None });
    es
}

fn value_table(v: &Vec<ValueString>) -> (es: Vec<ValueStringEntry>)
    requires
        v.len() < usize::MAX,
    ensures
        strings_match(
            Some(FieldConvert::ValueStrings(*v)),
            FieldStrings::ValueStrings(es),
        ),
{
    let mut es: Vec<ValueStringEntry> = Vec::new();
    let mut i: usize = 0;
    while i < v.len()
        invariant
            0 <= i <= v.len(),
            es.len() == i,
            forall|j: int|
                0 <= j < i ==> {
                    &&& (#[trigger] es@[j]).value == v@[j].value
                    &&& es@[j].label matches Some(l) && l@ == c_string(v@[j].label@)
                },
        decreases v.len() - i,
    {
        es.push(v[i].entry());
        i = i + 1;
    }
    es.push(ValueStringEntry { value: 0, label: None });
    es
}

fn val64_table(v: &Vec<Val64String>) -> (es: Vec<Val64StringEntry>)
    requires
        v.len() < usize::MAX,
    ensures
        strings_match(
            Some(FieldConvert::Val64Strings(*v)),
            FieldStrings::Val64Strings(es),
        ),
{
    let mut es: Vec<Val64StringEntry> = Vec::new();
    let mut i: usize = 0;
    while i < v.len()
        invariant
            0 <= i <= v.len(),
            es.len() == i,
            forall|j: int|
                0 <= j < i ==> {
                    &&& (#[trigger] es@[j]).value == v@[j].value
                    &&& es@[j].label matches Some(l) && l@ == c_string(v@[j].label@)
                },
        decreases v.len() - i,
    {
        es.push(v[i].entry());
        i = i + 1;
    }
    es.push(Val64StringEntry { value: 0, label: None });
    es
}

/// What a field needs for Wireshark to describe its values: no tables are longer than
/// memory can index.
pub open spec fn convert_fits(convert: Option<FieldConvert>) -> bool {
    match convert {
        Some(FieldConvert::RangeStrings(v)) => v.len() < usize::MAX,
        Some(FieldConvert::ValueStrings(v)) => v.len() < usize::MAX,
        Some(FieldConvert::Val64Strings(v)) => v.len() < usize::MAX,
        _ => true,
    }
}

/// A field of a protocol: how it is named, typed and displayed.
pub struct Field {
    pub id: String,
    pub name: String,
    pub abbrev: String,
    pub field_type: FieldType,
    pub display: FieldDisplay,
    /// Additional data used to customize the description of a field's value
    ///
    /// If not provided, the default for the given [`FieldType`] and [`FieldDisplay`] will be used.
    pub strings: Option<FieldConvert>,
    pub bitmask: u64,
    pub blurb: Option<String>,
}

/// The description of a field that Wireshark registers. Its handle, parent protocol, reference
/// type and link to a field of the same name are filled in by Wireshark; they are handed over
/// unset.
pub struct HeaderFieldInfo {
    pub name: Vec<u8>,
    pub abbrev: Vec<u8>,
    pub type_: u32,
    pub display: i32,
    pub strings: FieldStrings,
    pub bitmask: u64,
    pub blurb: Option<Vec<u8>>,
    pub id: i32,
    pub parent: i32,
    pub ref_type: u32,
    pub same_name_prev_id: i32,
}

impl Field {
    /// The description that registering this field hands to Wireshark: its texts as C
    /// strings, its type and display codes, and its value labels.
    pub fn header_field_info(&self) -> (h: HeaderFieldInfo)
        requires
            convert_fits(self.strings),
        ensures
            h.name@ == c_string(self.name@),
            h.abbrev@ == c_string(self.abbrev@),
            h.type_ == field_type_code(self.field_type),
            h.display == field_display_code(self.display) as i32,
            strings_match(self.strings, h.strings),
            h.bitmask == self.bitmask,
            self.blurb is None ==> h.blurb is None,
            self.blurb matches Some(b) ==> (h.blurb matches Some(hb) && hb@ == c_string(b@)),
            h.id == -1,
            h.parent == 0,
            h.ref_type == 0,
            h.same_name_prev_id == -1,
    {
        let strings = match &self.strings {
            None => FieldStrings::NoStrings,
            Some(FieldConvert::Framenum(f)) => FieldStrings::Framenum(f.to_u32()),
            Some(FieldConvert::Protocol(p)) => FieldStrings::Protocol(*p),
            Some(FieldConvert::RangeStrings(v)) => FieldStrings::RangeStrings(range_table(v)),
            Some(FieldConvert::TrueFalseString(tf)) => FieldStrings::TrueFalse(tf.entry()),
            Some(FieldConvert::ValueStrings(v)) => FieldStrings::ValueStrings(value_table(v)),
            Some(FieldConvert::Val64Strings(v)) => FieldStrings::Val64Strings(val64_table(v)),
        };
        let blurb = match &self.blurb {
            None => None,
            Some(b) => Some(to_c_str(b.as_str())),
        };
        HeaderFieldInfo {
            name: to_c_str(self.name.as_str()),
            abbrev: to_c_str(self.abbrev.as_str()),
            type_: self.field_type.to_u32(),
            display: self.display.to_u32() as i32,
            strings,
            bitmask: self.bitmask,
            blurb,
            id: -1,
            parent: 0,
            ref_type: 0,
            same_name_prev_id: -1,
        }
    }
}

/// Builds a [`Field`]; only the field type must be given.
pub struct FieldBuilder {
    id: String,
    name: String,
    abbrev: String,
    field_type: Option<FieldType>,
    display: Option<FieldDisplay>,
    strings: Option<FieldConvert>,
    bitmask: u64,
    blurb: Option<String>,
}

/// What a field builder holds so far.
pub struct FieldBuilderModel {
    pub id: Seq<char>,
    pub name: Seq<char>,
    pub abbrev: Seq<char>,
    pub field_type: Option<FieldType>,
    pub display: Option<FieldDisplay>,
    pub strings: Option<FieldConvert>,
    pub bitmask: u64,
    pub blurb: Option<Seq<char>>,
}

impl View for FieldBuilder {
    type V = FieldBuilderModel;

    closed spec fn view(&self) -> FieldBuilderModel {
        FieldBuilderModel {
            id: self.id@,
            name: self.name@,
            abbrev: self.abbrev@,
            field_type: self.field_type,
            display: self.display,
            strings: self.strings,
            bitmask: self.bitmask,
            blurb: match self.blurb {
                Some(b) => Some(b@),
                None => None,
            },
        }
    }
}

impl FieldBuilder {
    /// A builder for the field `id`, shown as `name` and filtered as `abbrev`, with no type,
    /// no display, no value labels, an empty bitmask and no description yet.
    pub fn new(id: &str, name: &str, abbrev: &str) -> (b: Self)
        ensures
            b@ == (FieldBuilderModel {
                id: id@,
                name: name@,
                abbrev: abbrev@,
                field_type: None,
                display: None,
                strings: None,
                bitmask: 0,
                blurb: None,
            }),
    {
        FieldBuilder {
            id: owned(id),
            name: owned(name),
            abbrev: owned(abbrev),
            field_type: None,
            display: None,
            strings: None,
            bitmask: 0,
            blurb: None,
        }
    }

    /// Sets the field type.
    pub fn field_type(self, field_type: FieldType) -> (b: Self)
        ensures
            b@ == (FieldBuilderModel { field_type: Some(field_type), ..self@ }),
    {
        let mut s = self;
        s.field_type = Some(field_type);
        s
    }

    /// Sets how the value is displayed.
    pub fn display(self, display: FieldDisplay) -> (b: Self)
        ensures
            b@ == (FieldBuilderModel { display: Some(display), ..self@ }),
    {
        let mut s = self;
        s.display = Some(display);
        s
    }

    /// Sets the labels of the field's values.
    pub fn strings(self, strings: FieldConvert) -> (b: Self)
        ensures
            b@ == (FieldBuilderModel { strings: Some(strings), ..self@ }),
    {
        let mut s = self;
        s.strings = Some(strings);
        s
    }

    /// Sets the bitmask of the field.
    pub fn bitmask(self, bitmask: u64) -> (b: Self)
        ensures
            b@ == (FieldBuilderModel { bitmask, ..self@ }),
    {
        let mut s = self;
        s.bitmask = bitmask;
        s
    }

    /// Sets the description of the field.
    pub fn blurb(self, blurb: &str) -> (b: Self)
        ensures
            b@ == (FieldBuilderModel { blurb: Some(blurb@), ..self@ }),
    {
        let mut s = self;
        s.blurb = Some(owned(blurb));
        s
    }

    /// The field, or `MissingFieldType` when no type was set; the display defaults to none.
    pub fn build(self) -> (res: Result<Field, RegistrationError>)
        ensures
            self@.field_type is None ==> res matches Err(RegistrationError::MissingFieldType),
            self@.field_type matches Some(t) ==> (res matches Ok(f) && {
                &&& f.id@ == self@.id
                &&& f.name@ == self@.name
                &&& f.abbrev@ == self@.abbrev
                &&& f.field_type == t
                &&& f.display == match self@.display {
                    Some(d) => d,
                    None => FieldDisplay::BaseNone,
                }
                &&& f.strings == self@.strings
                &&& f.bitmask == self@.bitmask
                &&& match f.blurb {
                    Some(b) => self@.blurb == Some(b@),
                    None => self@.blurb is None,
                }
            }),
    {
        let field_type = match self.field_type {
            Some(t) => t,
            None => return Err(RegistrationError::MissingFieldType),
        };
        let display = match self.display {
            Some(d) => d,
            None => FieldDisplay::BaseNone,
        };
        Ok(
            Field {
                id: self.id,
                name: self.name,
                abbrev: self.abbrev,
                field_type,
                display,
                strings: self.strings,
                bitmask: self.bitmask,
                blurb: self.blurb,
            },
        )
    }
}

/// A subtree type of a protocol: the name by which dissectors refer to it, and its title.
pub struct Ett {
    pub id: String,
    pub name: String,
}

/// An expert info entry of a protocol.
pub struct ExpertFieldInfo {
    pub id: String,
    pub group: ExpertGroup,
    pub severity: ExpertSeverity,
    pub summary: String,
}

/// The handles Wireshark assigned to an expert info entry.
#[derive(Clone, Copy, Debug)]
pub struct ExpertFieldHandle {
    pub ei: i32,
    pub hf: i32,
}

/// The description of an expert info entry that Wireshark registers.
pub struct ExpertInfoRecord {
    pub name: Vec<u8>,
    pub group: i32,
    pub severity: i32,
    pub summary: Vec<u8>,
}

/// Names of the fields and subtree types that reassembly of fragmented packets shows.
#[derive(Default)]
pub struct FragmentItemsNames {
    pub ett_fragment: String,
    pub ett_fragments: Option<String>,
    pub hf_fragments: String,
    pub hf_fragment: String,
    pub hf_fragment_overlap: String,
    pub hf_fragment_overlap_conflict: String,
    pub hf_fragment_multiple_tails: String,
    pub hf_fragment_too_long_fragment: String,
    pub hf_fragment_error: String,
    pub hf_fragment_count: Option<String>,
    pub hf_reassembled_in: Option<String>,
    pub hf_reassembled_length: Option<String>,
    pub hf_reassembled_data: Option<String>,
    pub tag: String,
}

/// The handles that the names of a [`FragmentItemsNames`] stand for.
#[derive(Debug, Copy, Clone)]
pub struct FragmentItemsOwned<'a> {
    pub ett_fragment: i32,
    pub ett_fragments: Option<i32>,
    pub hf_fragments: i32,
    pub hf_fragment: i32,
    pub hf_fragment_overlap: i32,
    pub hf_fragment_overlap_conflict: i32,
    pub hf_fragment_multiple_tails: i32,
    pub hf_fragment_too_long_fragment: i32,
    pub hf_fragment_error: i32,
    pub hf_fragment_count: Option<i32>,
    pub hf_reassembled_in: Option<i32>,
    pub hf_reassembled_length: Option<i32>,
    pub hf_reassembled_data: Option<i32>,
    pub tag: &'a str,
}

/// Value of an optional name in `m`: absent when the name is absent or has no value.
pub open spec fn lookup_opt(m: Map<Seq<char>, i32>, key: Option<String>) -> Option<i32> {
    match key {
        Some(k) => lookup(m, k@),
        None => None,
    }
}

/// Every name that reassembly needs has a handle: the fragment subtree type and the seven
/// fragment fields.
pub open spec fn fragment_names_resolve(
    n: FragmentItemsNames,
    etts: Map<Seq<char>, i32>,
    fields: Map<Seq<char>, i32>,
) -> bool {
    &&& etts.dom().contains(n.ett_fragment@)
    &&& fields.dom().contains(n.hf_fragments@)
    &&& fields.dom().contains(n.hf_fragment@)
    &&& fields.dom().contains(n.hf_fragment_overlap@)
    &&& fields.dom().contains(n.hf_fragment_overlap_conflict@)
    &&& fields.dom().contains(n.hf_fragment_multiple_tails@)
    &&& fields.dom().contains(n.hf_fragment_too_long_fragment@)
    &&& fields.dom().contains(n.hf_fragment_error@)
}

/// `f` holds the handles of the names in `n`; optional names without a handle are absent.
pub open spec fn fragment_items_match(
    f: FragmentItemsOwned,
    n: FragmentItemsNames,
    etts: Map<Seq<char>, i32>,
    fields: Map<Seq<char>, i32>,
) -> bool {
    &&& f.ett_fragment == etts[n.ett_fragment@]
    &&& f.ett_fragments == lookup_opt(etts, n.ett_fragments)
    &&& f.hf_fragments == fields[n.hf_fragments@]
    &&& f.hf_fragment == fields[n.hf_fragment@]
    &&& f.hf_fragment_overlap == fields[n.hf_fragment_overlap@]
    &&& f.hf_fragment_overlap_conflict == fields[n.hf_fragment_overlap_conflict@]
    &&& f.hf_fragment_multiple_tails == fields[n.hf_fragment_multiple_tails@]
    &&& f.hf_fragment_too_long_fragment == fields[n.hf_fragment_too_long_fragment@]
    &&& f.hf_fragment_error == fields[n.hf_fragment_error@]
    &&& f.hf_fragment_count == lookup_opt(fields, n.hf_fragment_count)
    &&& f.hf_reassembled_in == lookup_opt(fields, n.hf_reassembled_in)
    &&& f.hf_reassembled_length == lookup_opt(fields, n.hf_reassembled_length)
    &&& f.hf_reassembled_data == lookup_opt(fields, n.hf_reassembled_data)
    &&& f.tag@ == n.tag@
}

/// Handles of the subtree types, fields and expert infos that Wireshark assigned when a
/// protocol was registered.
pub struct RegistrationResult {
    pub field_handles: Vec<i32>,
    pub ett_handles: Vec<i32>,
    pub expert_handles: Vec<ExpertFieldHandle>,
}

/// What registering a protocol hands to Wireshark: a description of each field, the number
/// of subtree types, and a description of each expert info entry.
pub struct RegistrationRequest {
    pub fields: Vec<HeaderFieldInfo>,
    pub ett_count: usize,
    pub experts: Vec<ExpertInfoRecord>,
}

/// A protocol: its names, the dissector that decodes it, and the fields, subtree types and
/// expert infos it defines together with the handles Wireshark gave them.
pub struct Protocol<D> {
    name: String,
    pub abbrev: String,
    filter: String,
    pub proto_handle: i32,
    ett_defs: Vec<Ett>,
    ett_handles: HandleTable<i32>,
    pub dissector_fn: D,
    field_defs: Vec<Field>,
    field_handles: HandleTable<i32>,
    expert_info_defs: Vec<ExpertFieldInfo>,
    expert_fields_handles: HandleTable<ExpertFieldHandle>,
    pub match_definitions: Option<Vec<DissectorDecodeFrom>>,
    fragment_items: Option<FragmentItemsNames>,
}

/// What a protocol holds.
pub struct ProtocolModel<D> {
    pub name: Seq<char>,
    pub abbrev: Seq<char>,
    pub filter: Seq<char>,
    pub proto_handle: i32,
    pub dissector_fn: D,
    pub match_definitions: Option<Seq<DissectorDecodeFrom>>,
    pub ett_defs: Seq<Ett>,
    pub ett_handles: Map<Seq<char>, i32>,
    pub field_defs: Seq<Field>,
    pub field_handles: Map<Seq<char>, i32>,
    pub expert_info_defs: Seq<ExpertFieldInfo>,
    pub expert_handles: Map<Seq<char>, ExpertFieldHandle>,
    pub fragment_items: Option<FragmentItemsNames>,
}

impl<D> View for Protocol<D> {
    type V = ProtocolModel<D>;

    closed spec fn view(&self) -> ProtocolModel<D> {
        ProtocolModel {
            name: self.name@,
            abbrev: self.abbrev@,
            filter: self.filter@,
            proto_handle: self.proto_handle,
            dissector_fn: self.dissector_fn,
            match_definitions: match self.match_definitions {
                Some(m) => Some(m@),
                None => None,
            },
            ett_defs: self.ett_defs@,
            ett_handles: self.ett_handles@,
            field_defs: self.field_defs@,
            field_handles: self.field_handles@,
            expert_info_defs: self.expert_info_defs@,
            expert_handles: self.expert_fields_handles@,
            fragment_items: self.fragment_items,
        }
    }
}

impl<D> ProtocolModel<D> {
    /// Names of the subtree types, in order.
    pub open spec fn ett_ids(self) -> Seq<Seq<char>> {
        self.ett_defs.map_values(|e: Ett| e.id@)
    }

    /// Names of the fields, in order.
    pub open spec fn field_ids(self) -> Seq<Seq<char>> {
        self.field_defs.map_values(|f: Field| f.id@)
    }

    /// Names of the expert info entries, in order.
    pub open spec fn expert_ids(self) -> Seq<Seq<char>> {
        self.expert_info_defs.map_values(|e: ExpertFieldInfo| e.id@)
    }
}

/// The names under which a protocol is registered with Wireshark, as C strings.
pub struct ProtocolNames {
    pub name: Vec<u8>,
    pub abbrev: Vec<u8>,
    pub filter: Vec<u8>,
}

impl<D> Protocol<D> {
    /// What registering the protocol itself hands to Wireshark: its name, abbreviation and
    /// filter name.
    pub fn protocol_names(&self) -> (n: ProtocolNames)
        ensures
            n.name@ == c_string(self@.name),
            n.abbrev@ == c_string(self@.abbrev),
            n.filter@ == c_string(self@.filter),
    {
        ProtocolNames {
            name: to_c_str(self.name.as_str()),
            abbrev: to_c_str(self.abbrev.as_str()),
            filter: to_c_str(self.filter.as_str()),
        }
    }

    /// Records the handle that Wireshark assigned to the protocol itself.
    pub fn set_proto_handle(&mut self, handle: i32)
        ensures
            final(self)@ == (ProtocolModel { proto_handle: handle, ..old(self)@ }),
    {
        self.proto_handle = handle;
    }

    /// Records the handle that Wireshark assigned to `field`; a handle of `-1` means that the
    /// registration failed and records nothing.
    pub fn register_field(&mut self, field: &Field, handle: i32) -> (res: Result<
        (),
        RegistrationError,
    >)
        ensures
            handle != -1 ==> res is Ok && final(self)@ == (ProtocolModel {
                field_handles: old(self)@.field_handles.insert(field.id@, handle),
                ..old(self)@
            }),
            handle == -1 ==> (res matches Err(RegistrationError::RegistrationFailed))
                && final(self)@ == old(self)@,
    {
        if handle != -1 {
            self.field_handles.insert(field.id.clone(), handle);
            Ok(())
        } else {
            Err(RegistrationError::RegistrationFailed)
        }
    }

    /// The handle of the subtree type named `id`, if it was registered.
    pub fn get_ett_handle(&self, id: &str) -> (h: Option<i32>)
        ensures
            h == lookup(self@.ett_handles, id@),
    {
        self.ett_handles.get(&owned(id))
    }

    /// Records the handles Wireshark assigned to the subtree types, in the order they were
    /// defined.
    pub fn register_ett(&mut self, handles: &Vec<i32>)
        requires
            handles.len() == old(self)@.ett_defs.len(),
        ensures
            final(self)@ == (ProtocolModel {
                ett_handles: insert_all(old(self)@.ett_handles, old(self)@.ett_ids(), handles@),
                ..old(self)@
            }),
    {
        let ghost start = self@;
        let mut i: usize = 0;
        while i < handles.len()
            invariant
                0 <= i <= handles.len(),
                handles.len() == self.ett_defs.len(),
                self@ == (ProtocolModel {
                    ett_handles: insert_all(
                        start.ett_handles,
                        start.ett_ids().take(i as int),
                        handles@.take(i as int),
                    ),
                    ..start
                }),
            decreases handles.len() - i,
        {
            let id = self.ett_defs[i].id.clone();
            self.ett_handles.insert(id, handles[i]);
            proof {
                assert(start.ett_ids().take(i + 1).drop_last() =~= start.ett_ids().take(i as int));
                assert(handles@.take(i + 1).drop_last() =~= handles@.take(i as int));
            }
            i = i + 1;
        }
        proof {
            assert(start.ett_ids().take(i as int) =~= start.ett_ids());
            assert(handles@.take(i as int) =~= handles@);
        }
    }

    /// The handle Wireshark gave to the protocol itself.
    pub fn get_proto_handle(&self) -> (h: i32)
        ensures
            h == self@.proto_handle,
    {
        self.proto_handle
    }

    /// The handle of the field named `abbrev`, if it was registered.
    pub fn get_field_handle(&self, abbrev: &str) -> (h: Option<i32>)
        ensures
            h == lookup(self@.field_handles, abbrev@),
    {
        self.field_handles.get(&owned(abbrev))
    }

    /// The handles that the protocol's reassembly names stand for; none when the protocol
    /// names no reassembly items or one of the required names has no handle.
    pub fn get_fragment_items(&self) -> (r: Option<FragmentItemsOwned<'_>>)
        ensures
            self@.fragment_items is None ==> r is None,
            self@.fragment_items matches Some(n) ==> (r is Some <==> fragment_names_resolve(
                n,
                self@.ett_handles,
                self@.field_handles,
            )),
            r matches Some(f) ==> fragment_items_match(
                f,
                self@.fragment_items.unwrap(),
                self@.ett_handles,
                self@.field_handles,
            ),
    {
        let n = match &self.fragment_items {
            None => return None,
            Some(n) => n,
        };
        let ett_fragment = self.ett_handles.get(&n.ett_fragment)?;
        let ett_fragments = match &n.ett_fragments {
            Some(e) => self.ett_handles.get(e),
            None => None,
        };
        let hf_fragments = self.field_handles.get(&n.hf_fragments)?;
        let hf_fragment = self.field_handles.get(&n.hf_fragment)?;
        let hf_fragment_overlap = self.field_handles.get(&n.hf_fragment_overlap)?;
        let hf_fragment_overlap_conflict = self.field_handles.get(
            &n.hf_fragment_overlap_conflict,
        )?;
        let hf_fragment_multiple_tails = self.field_handles.get(&n.hf_fragment_multiple_tails)?;
        let hf_fragment_too_long_fragment = self.field_handles.get(
            &n.hf_fragment_too_long_fragment,
        )?;
        let hf_fragment_error = self.field_handles.get(&n.hf_fragment_error)?;
        let hf_fragment_count = match &n.hf_fragment_count {
            Some(k) => self.field_handles.get(k),
            None => None,
        };
        let hf_reassembled_in = match &n.hf_reassembled_in {
            Some(k) => self.field_handles.get(k),
            None => None,
        };
        let hf_reassembled_length = match &n.hf_reassembled_length {
            Some(k) => self.field_handles.get(k),
            None => None,
        };
        let hf_reassembled_data = match &n.hf_reassembled_data {
            Some(k) => self.field_handles.get(k),
            None => None,
        };
        Some(
            FragmentItemsOwned {
                ett_fragment,
                ett_fragments,
                hf_fragments,
                hf_fragment,
                hf_fragment_overlap,
                hf_fragment_overlap_conflict,
                hf_fragment_multiple_tails,
                hf_fragment_too_long_fragment,
                hf_fragment_error,
                hf_fragment_count,
                hf_reassembled_in,
                hf_reassembled_length,
                hf_reassembled_data,
                tag: n.tag.as_str(),
            },
        )
    }

    /// The description of the expert info entry `info` that registration hands to Wireshark:
    /// its name is the protocol's filter name, a dot and the entry's name.
    pub fn expert_info_record(&self, info: &ExpertFieldInfo) -> (r: ExpertInfoRecord)
        ensures
            r.name@ == c_string(self@.filter + "."@ + info.id@),
            r.group == expert_group_code(info.group) as i32,
            r.severity == expert_severity_code(info.severity) as i32,
            r.summary@ == c_string(info.summary@),
    {
        let mut name = self.filter.clone();
        name.append(".");
        name.append(info.id.as_str());
        ExpertInfoRecord {
            name: to_c_str(name.as_str()),
            group: info.group.to_u32() as i32,
            severity: info.severity.to_u32() as i32,
            summary: to_c_str(info.summary.as_str()),
        }
    }

    /// Records the handles that Wireshark assigned to the expert info entry `info`; unless
    /// both are set (not `-1`) the registration failed and nothing is recorded.
    pub fn register_expert_info(&mut self, info: &ExpertFieldInfo, handle: ExpertFieldHandle) -> (res:
        Result<(), RegistrationError>)
        ensures
            handle.ei != -1 && handle.hf != -1 ==> res is Ok && final(self)@ == (ProtocolModel {
                expert_handles: old(self)@.expert_handles.insert(info.id@, handle),
                ..old(self)@
            }),
            !(handle.ei != -1 && handle.hf != -1) ==> (res matches Err(
                RegistrationError::RegistrationFailed,
            )) && final(self)@ == old(self)@,
    {
        if handle.ei != -1 && handle.hf != -1 {
            self.expert_fields_handles.insert(info.id.clone(), handle);
            Ok(())
        } else {
            Err(RegistrationError::RegistrationFailed)
        }
    }

    /// The handles of the expert info entry named `id`, if it was registered.
    pub fn get_expert_field(&self, id: &str) -> (h: Option<ExpertFieldHandle>)
        ensures
            h == lookup(self@.expert_handles, id@),
    {
        self.expert_fields_handles.get(&owned(id))
    }

    /// What registering this protocol hands to Wireshark: the description of each field, in
    /// order, the number of subtree types, and the description of each expert info entry.
    pub fn registration_request(&self) -> (r: RegistrationRequest)
        requires
            forall|i: int|
                0 <= i < self@.field_defs.len() ==> convert_fits(
                    #[trigger] self@.field_defs[i].strings,
                ),
        ensures
            r.fields.len() == self@.field_defs.len(),
            forall|i: int|
                0 <= i < r.fields.len() ==> {
                    let f = self@.field_defs[i];
                    let h = #[trigger] r.fields@[i];
                    &&& h.name@ == c_string(f.name@)
                    &&& h.abbrev@ == c_string(f.abbrev@)
                    &&& h.type_ == field_type_code(f.field_type)
                    &&& h.display == field_display_code(f.display) as i32
                    &&& strings_match(f.strings, h.strings)
                    &&& h.bitmask == f.bitmask
                    &&& (f.blurb is None ==> h.blurb is None)
                    &&& (f.blurb matches Some(b) ==> (h.blurb matches Some(hb) && hb@ == c_string(
                        b@,
                    )))
                    &&& h.id == -1
                    &&& h.parent == 0
                    &&& h.ref_type == 0
                    &&& h.same_name_prev_id == -1
                },
            r.ett_count == self@.ett_defs.len(),
            r.experts.len() == self@.expert_info_defs.len(),
            forall|i: int|
                0 <= i < r.experts.len() ==> {
                    let e = self@.expert_info_defs[i];
                    let x = #[trigger] r.experts@[i];
                    &&& x.name@ == c_string(self@.filter + "."@ + e.id@)
                    &&& x.group == expert_group_code(e.group) as i32
                    &&& x.severity == expert_severity_code(e.severity) as i32
                    &&& x.summary@ == c_string(e.summary@)
                },
    {
        let mut fields: Vec<HeaderFieldInfo> = Vec::new();
        let mut i: usize = 0;
        while i < self.field_defs.len()
            invariant
                0 <= i <= self.field_defs.len(),
                fields.len() == i,
                forall|j: int|
                    0 <= j < self@.field_defs.len() ==> convert_fits(
                        #[trigger] self@.field_defs[j].strings,
                    ),
                forall|j: int|
                    0 <= j < i ==> {
                        let f = self@.field_defs[j];
                        let h = #[trigger] fields@[j];
                        &&& h.name@ == c_string(f.name@)
                        &&& h.abbrev@ == c_string(f.abbrev@)
                        &&& h.type_ == field_type_code(f.field_type)
                        &&& h.display == field_display_code(f.display) as i32
                        &&& strings_match(f.strings, h.strings)
                        &&& h.bitmask == f.bitmask
                        &&& (f.blurb is None ==> h.blurb is None)
                        &&& (f.blurb matches Some(b) ==> (h.blurb matches Some(hb) && hb@
                            == c_string(b@)))
                        &&& h.id == -1
                        &&& h.parent == 0
                        &&& h.ref_type == 0
                        &&& h.same_name_prev_id == -1
                    },
            decreases self.field_defs.len() - i,
        {
            assert(convert_fits(self@.field_defs[i as int].strings));
            fields.push(self.field_defs[i].header_field_info());
            i = i + 1;
        }
        let mut experts: Vec<ExpertInfoRecord> = Vec::new();
        let mut k: usize = 0;
        while k < self.expert_info_defs.len()
            invariant
                0 <= k <= self.expert_info_defs.len(),
                experts.len() == k,
                forall|j: int|
                    0 <= j < k ==> {
                        let e = self@.expert_info_defs[j];
                        let x = #[trigger] experts@[j];
                        &&& x.name@ == c_string(self@.filter + "."@ + e.id@)
                        &&& x.group == expert_group_code(e.group) as i32
                        &&& x.severity == expert_severity_code(e.severity) as i32
                        &&& x.summary@ == c_string(e.summary@)
                    },
            decreases self.expert_info_defs.len() - k,
        {
            experts.push(self.expert_info_record(&self.expert_info_defs[k]));
            k = k + 1;
        }
        RegistrationRequest { fields, ett_count: self.ett_defs.len(), experts }
    }

    /// Records the handles Wireshark assigned when the protocol was registered: one per field,
    /// per subtree type and per expert info entry, in the order they were defined. Every
    /// field and expert info handle must be set (not `-1`).
    pub fn register(&mut self, result: &RegistrationResult)
        requires
            result.field_handles.len() == old(self)@.field_defs.len(),
            forall|i: int|
                0 <= i < result.field_handles.len() ==> #[trigger] result.field_handles@[i]
                    != -1,
            result.ett_handles.len() == old(self)@.ett_defs.len(),
            result.expert_handles.len() == old(self)@.expert_info_defs.len(),
            forall|i: int|
                0 <= i < result.expert_handles.len() ==> (#[trigger] result.expert_handles@[i]).ei
                    != -1 && result.expert_handles@[i].hf != -1,
        ensures
            final(self)@ == (ProtocolModel {
                field_handles: insert_all(
                    old(self)@.field_handles,
                    old(self)@.field_ids(),
                    result.field_handles@,
                ),
                ett_handles: insert_all(
                    old(self)@.ett_handles,
                    old(self)@.ett_ids(),
                    result.ett_handles@,
                ),
                expert_handles: insert_all(
                    old(self)@.expert_handles,
                    old(self)@.expert_ids(),
                    result.expert_handles@,
                ),
                ..old(self)@
            }),
    {
        let ghost start = self@;
        let mut i: usize = 0;
        while i < result.field_handles.len()
            invariant
                0 <= i <= result.field_handles.len(),
                result.field_handles.len() == self.field_defs.len(),
                self@ == (ProtocolModel {
                    field_handles: insert_all(
                        start.field_handles,
                        start.field_ids().take(i as int),
                        result.field_handles@.take(i as int),
                    ),
                    ..start
                }),
            decreases result.field_handles.len() - i,
        {
            let id = self.field_defs[i].id.clone();
            self.field_handles.insert(id, result.field_handles[i]);
            proof {
                assert(start.field_ids().take(i + 1).drop_last() =~= start.field_ids().take(
                    i as int,
                ));
                assert(result.field_handles@.take(i + 1).drop_last()
                    =~= result.field_handles@.take(i as int));
            }
            i = i + 1;
        }
        proof {
            assert(start.field_ids().take(i as int) =~= start.field_ids());
            assert(result.field_handles@.take(i as int) =~= result.field_handles@);
        }
        self.register_ett(&result.ett_handles);
        let ghost mid = self@;
        let mut k: usize = 0;
        while k < result.expert_handles.len()
            invariant
                0 <= k <= result.expert_handles.len(),
                result.expert_handles.len() == self.expert_info_defs.len(),
                self@ == (ProtocolModel {
                    expert_handles: insert_all(
                        mid.expert_handles,
                        mid.expert_ids().take(k as int),
                        result.expert_handles@.take(k as int),
                    ),
                    ..mid
                }),
            decreases result.expert_handles.len() - k,
        {
            let id = self.expert_info_defs[k].id.clone();
            self.expert_fields_handles.insert(id, result.expert_handles[k]);
            proof {
                assert(mid.expert_ids().take(k + 1).drop_last() =~= mid.expert_ids().take(
                    k as int,
                ));
                assert(result.expert_handles@.take(k + 1).drop_last()
                    =~= result.expert_handles@.take(k as int));
            }
            k = k + 1;
        }
        proof {
            assert(mid.expert_ids().take(k as int) =~= mid.expert_ids());
            assert(result.expert_handles@.take(k as int) =~= result.expert_handles@);
        }
    }
}

/// Builds a [`Protocol`] from its names, fields, subtree types and expert infos.
pub struct ProtocolBuilder<D> {
    name: String,
    abbrev: String,
    filter: String,
    dissector_fn: Option<D>,
    fields: Vec<Field>,
    ett: Vec<Ett>,
    expert_infos: Vec<ExpertFieldInfo>,
    match_definitions: Vec<DissectorDecodeFrom>,
    fragment_items: Option<FragmentItemsNames>,
}

/// What a protocol builder holds so far.
pub struct ProtocolBuilderModel<D> {
    pub name: Seq<char>,
    pub abbrev: Seq<char>,
    pub filter: Seq<char>,
    pub dissector_fn: Option<D>,
    pub fields: Seq<Field>,
    pub ett: Seq<Ett>,
    pub expert_infos: Seq<ExpertFieldInfo>,
    pub match_definitions: Seq<DissectorDecodeFrom>,
    pub fragment_items: Option<FragmentItemsNames>,
}

impl<D> View for ProtocolBuilder<D> {
    type V = ProtocolBuilderModel<D>;

    closed spec fn view(&self) -> ProtocolBuilderModel<D> {
        ProtocolBuilderModel {
            name: self.name@,
            abbrev: self.abbrev@,
            filter: self.filter@,
            dissector_fn: self.dissector_fn,
            fields: self.fields@,
            ett: self.ett@,
            expert_infos: self.expert_infos@,
            match_definitions: self.match_definitions@,
            fragment_items: self.fragment_items,
        }
    }
}

impl<D> ProtocolBuilder<D> {
    /// A builder for the protocol shown as `name`, abbreviated `abbrev` and filtered as
    /// `filter`, with nothing else defined yet.
    pub fn new(name: &str, abbrev: &str, filter: &str) -> (b: Self)
        ensures
            b@ == (ProtocolBuilderModel {
                name: name@,
                abbrev: abbrev@,
                filter: filter@,
                dissector_fn: None::<D>,
                fields: Seq::empty(),
                ett: Seq::empty(),
                expert_infos: Seq::empty(),
                match_definitions: Seq::empty(),
                fragment_items: None,
            }),
    {
        let b = ProtocolBuilder {
            name: owned(name),
            abbrev: owned(abbrev),
            filter: owned(filter),
            dissector_fn: None,
            fields: Vec::new(),
            ett: Vec::new(),
            expert_infos: Vec::new(),
            match_definitions: Vec::new(),
            fragment_items: None,
        };
        assert(b@.fields =~= Seq::<Field>::empty());
        assert(b@.ett =~= Seq::<Ett>::empty());
        assert(b@.expert_infos =~= Seq::<ExpertFieldInfo>::empty());
        assert(b@.match_definitions =~= Seq::<DissectorDecodeFrom>::empty());
        b
    }

    /// Sets the dissector.
    pub fn dissector(self, dissector: D) -> (b: Self)
        ensures
            b@ == (ProtocolBuilderModel { dissector_fn: Some(dissector), ..self@ }),
    {
        let mut s = self;
        s.dissector_fn = Some(dissector);
        s
    }

    /// Adds a field.
    pub fn field(self, field: Field) -> (b: Self)
        ensures
            b@ == (ProtocolBuilderModel { fields: self@.fields.push(field), ..self@ }),
    {
        let mut s = self;
        s.fields.push(field);
        s
    }

    /// Adds a subtree type named `id`, titled `name`.
    pub fn ett(self, id: &str, name: &str) -> (b: Self)
        ensures
            b@.ett.len() == self@.ett.len() + 1,
            b@.ett.drop_last() == self@.ett,
            b@.ett.last().id@ == id@,
            b@.ett.last().name@ == name@,
            b@ == (ProtocolBuilderModel { ett: b@.ett, ..self@ }),
    {
        let mut s = self;
        let ghost before = s@.ett;
        s.ett.push(Ett { id: owned(id), name: owned(name) });
        assert(s@.ett.drop_last() =~= before);
        s
    }

    /// Sets the names of the reassembly items.
    pub fn fragment_items(self, fragment_items: FragmentItemsNames) -> (b: Self)
        ensures
            b@ == (ProtocolBuilderModel { fragment_items: Some(fragment_items), ..self@ }),
    {
        let mut s = self;
        s.fragment_items = Some(fragment_items);
        s
    }

    /// Adds an expert info entry named `id`.
    pub fn expert_info(
        self,
        id: &str,
        group: ExpertGroup,
        severity: ExpertSeverity,
        summary: &str,
    ) -> (b: Self)
        ensures
            b@.expert_infos.len() == self@.expert_infos.len() + 1,
            b@.expert_infos.drop_last() == self@.expert_infos,
            b@.expert_infos.last().id@ == id@,
            b@.expert_infos.last().group == group,
            b@.expert_infos.last().severity == severity,
            b@.expert_infos.last().summary@ == summary@,
            b@ == (ProtocolBuilderModel { expert_infos: b@.expert_infos, ..self@ }),
    {
        let mut s = self;
        let ghost before = s@.expert_infos;
        s.expert_infos.push(ExpertFieldInfo { id: owned(id), group, severity, summary: owned(summary) });
        assert(s@.expert_infos.drop_last() =~= before);
        s
    }

    /// Adds a place the dissector is attached to.
    pub fn decode_from(self, decode_from: DissectorDecodeFrom) -> (b: Self)
        ensures
            b@ == (ProtocolBuilderModel {
                match_definitions: self@.match_definitions.push(decode_from),
                ..self@
            }),
    {
        let mut s = self;
        s.match_definitions.push(decode_from);
        s
    }

    /// The protocol, or `MissingDissector` when no dissector was set. Its subtree types are
    /// the root type `_root`, titled with the protocol's name and " Protocol Tree", followed
    /// by those added. It is not registered yet: its handle is `-1` until
    /// [`Protocol::set_proto_handle`] records the one Wireshark assigns, and no other handles
    /// are recorded.
    pub fn build(self) -> (res: Result<Protocol<D>, RegistrationError>)
        ensures
            self@.dissector_fn is None ==> res matches Err(RegistrationError::MissingDissector),
            self@.dissector_fn matches Some(d) ==> (res matches Ok(p) && {
                &&& p@.dissector_fn == d
                &&& p@.abbrev == self@.abbrev
                &&& p@.proto_handle == -1
                &&& p@.name == self@.name
                &&& p@.filter == self@.filter
                &&& p@.ett_defs.len() == self@.ett.len() + 1
                &&& p@.ett_defs[0].id@ == ROOT_ETT_ID@
                &&& p@.ett_defs[0].name@ == self@.name + " Protocol Tree"@
                &&& p@.ett_defs.drop_first() == self@.ett
                &&& p@.ett_handles == Map::<Seq<char>, i32>::empty()
                &&& p@.field_defs == self@.fields
                &&& p@.field_handles == Map::<Seq<char>, i32>::empty()
                &&& p@.expert_info_defs == self@.expert_infos
                &&& p@.expert_handles == Map::<Seq<char>, ExpertFieldHandle>::empty()
                &&& p@.match_definitions == Some(self@.match_definitions)
                &&& p@.fragment_items == self@.fragment_items
            }),
    {
        let dissector = match self.dissector_fn {
            Some(d) => d,
            None => return Err(RegistrationError::MissingDissector),
        };
        let mut title = self.name.clone();
        title.append(" Protocol Tree");
        let mut ett_defs: Vec<Ett> = Vec::new();
        ett_defs.push(Ett { id: owned(ROOT_ETT_ID), name: title });
        let mut extra = self.ett;
        let ghost added = extra@;
        ett_defs.append(&mut extra);
        assert(ett_defs@.drop_first() =~= added);
        Ok(
            Protocol {
                name: self.name,
                abbrev: self.abbrev,
                filter: self.filter,
                proto_handle: -1,
                ett_defs,
                ett_handles: HandleTable::new(),
                dissector_fn: dissector,
                field_defs: self.fields,
                field_handles: HandleTable::new(),
                expert_info_defs: self.expert_infos,
                expert_fields_handles: HandleTable::new(),
                match_definitions: Some(self.match_definitions),
                fragment_items: self.fragment_items,
            },
        )
    }
}

} // verus!
