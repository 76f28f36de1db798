use crate::address::{Address, AddressModel};
use crate::protocol::{c_string, owned};
use crate::tvb::{Tvb, TvbModel};
use crate::types::{to_c_str, Column};
use vstd::prelude::*;
use vstd::slice::slice_to_vec;

verus! {

/// The text holds no NUL character, so it can be copied into a C string.
pub open spec fn no_nul(s: Seq<char>) -> bool {
    !s.contains('\0')
}

/// A buffer that a dissector created and that Wireshark shows as a separate data tab.
pub struct DataSource {
    pub tvb: Tvb,
    pub name: String,
}

/// What is known of the packet being dissected.
pub struct PacketInfo {
    protocol_column: String,
    info_column: String,
    fragmented: bool,
    visited: Option<bool>,
    dl_src: Address,
    dl_dst: Address,
    src: Address,
    dst: Address,
    data_sources: Vec<DataSource>,
}

/// What a packet's information holds. `visited` is `None` when the packet has no frame data.
pub struct PacketInfoModel {
    pub protocol_column: Seq<char>,
    pub info_column: Seq<char>,
    pub fragmented: bool,
    pub visited: Option<bool>,
    pub dl_src: AddressModel,
    pub dl_dst: AddressModel,
    pub src: AddressModel,
    pub dst: AddressModel,
    pub data_sources: Seq<(TvbModel, Seq<char>)>,
}

impl PacketInfoModel {
    /// Text of a column.
    pub open spec fn column(self, col: Column) -> Seq<char> {
        match col {
            Column::Protocol => self.protocol_column,
            Column::Info => self.info_column,
        }
    }

    /// The same information, with `col` holding `text`.
    pub open spec fn with_column(self, col: Column, text: Seq<char>) -> PacketInfoModel {
        match col {
            Column::Protocol => PacketInfoModel { protocol_column: text, ..self },
            Column::Info => PacketInfoModel { info_column: text, ..self },
        }
    }
}

impl View for PacketInfo {
    type V = PacketInfoModel;

    closed spec fn view(&self) -> PacketInfoModel {
        PacketInfoModel {
            protocol_column: self.protocol_column@,
            info_column: self.info_column@,
            fragmented: self.fragmented,
            visited: self.visited,
            dl_src: self.dl_src@,
            dl_dst: self.dl_dst@,
            src: self.src@,
            dst: self.dst@,
            data_sources: self.data_sources@.map_values(|d: DataSource| (d.tvb@, d.name@)),
        }
    }
}

impl PacketInfo {
    /// Information of a packet with the given link-layer and network addresses; `visited`
    /// tells whether the packet was seen in an earlier pass and is `None` when the packet has
    /// no frame data. Columns start empty, the packet unfragmented and without data sources.
    pub fn new(
        dl_src: Address,
        dl_dst: Address,
        src: Address,
        dst: Address,
        visited: Option<bool>,
    ) -> (p: PacketInfo)
        ensures
            p@ == (PacketInfoModel {
                protocol_column: Seq::empty(),
                info_column: Seq::empty(),
                fragmented: false,
                visited,
                dl_src: dl_src@,
                dl_dst: dl_dst@,
                src: src@,
                dst: dst@,
                data_sources: Seq::empty(),
            }),
    {
        let p = PacketInfo {
            protocol_column: String::new(),
            info_column: String::new(),
            fragmented: false,
            visited,
            dl_src,
            dl_dst,
            src,
            dst,
            data_sources: Vec::new(),
        };
        assert(p@.data_sources =~= Seq::<(TvbModel, Seq<char>)>::empty());
        p
    }

    /// A NUL-terminated copy of `s` that lives as long as the packet.
    pub fn alloc_string(&self, s: &str) -> (c: Vec<u8>)
        requires
            no_nul(s@),
        ensures
            c@ == c_string(s@),
    {
        to_c_str(s)
    }

    /// A copy of `bytes` that lives as long as the packet.
    pub fn alloc_bytes(&self, bytes: &[u8]) -> (c: Vec<u8>)
        ensures
            c@ == bytes@,
    {
        slice_to_vec(bytes)
    }

    /// Replaces the text of a column.
    pub fn set_column_text(&mut self, col: Column, text: &str)
        requires
            no_nul(text@),
        ensures
            final(self)@ == old(self)@.with_column(col, text@),
    {
        match col {
            Column::Protocol => self.protocol_column = owned(text),
            Column::Info => self.info_column = owned(text),
        }
    }

    /// Empties a column.
    pub fn clear_column(&mut self, col: Column)
        ensures
            final(self)@ == old(self)@.with_column(col, Seq::empty()),
    {
        match col {
            Column::Protocol => self.protocol_column = String::new(),
            Column::Info => self.info_column = String::new(),
        }
    }

    /// The text of a column.
    pub fn column(&self, col: Column) -> (s: &String)
        ensures
            s@ == self@.column(col),
    {
        match col {
            Column::Protocol => &self.protocol_column,
            Column::Info => &self.info_column,
        }
    }

    /// Shows `tvb` as a data source named `name`.
    pub fn add_data_source(&mut self, tvb: &Tvb, name: &str)
        requires
            no_nul(name@),
        ensures
            final(self)@ == (PacketInfoModel {
                data_sources: old(self)@.data_sources.push((tvb@, name@)),
                ..old(self)@
            }),
    {
        let ghost before = self@.data_sources;
        self.data_sources.push(DataSource { tvb: tvb.clone(), name: owned(name) });
        assert(self@.data_sources =~= before.push((tvb@, name@)));
    }

    /// The data sources added so far, oldest first.
    pub fn data_sources(&self) -> (d: &Vec<DataSource>)
        ensures
            d@.map_values(|d: DataSource| (d.tvb@, d.name@)) == self@.data_sources,
    {
        &self.data_sources
    }

    /// Marks the packet as fragmented or not.
    pub fn set_fragmented(&mut self, fragmented: bool)
        ensures
            final(self)@ == (PacketInfoModel { fragmented, ..old(self)@ }),
    {
        self.fragmented = fragmented;
    }

    /// Whether the packet is marked as fragmented.
    pub fn fragmented(&self) -> (f: bool)
        ensures
            f == self@.fragmented,
    {
        self.fragmented
    }

    /// Whether the packet was seen in an earlier pass; the packet must have frame data.
    pub fn fd_visited(&self) -> (v: bool)
        requires
            self@.visited is Some,
        ensures
            v == self@.visited.unwrap(),
    {
        match self.visited {
            Some(v) => v,
            None => false,
        }
    }

    /// Marks the packet as seen or not; the packet must have frame data.
    pub fn set_fd_visited(&mut self, value: bool)
        requires
            old(self)@.visited is Some,
        ensures
            final(self)@ == (PacketInfoModel { visited: Some(value), ..old(self)@ }),
    {
        self.visited = Some(value);
    }

    /// The link-layer source address.
    pub fn dl_src(&self) -> (a: Address)
        ensures
            a@ == self@.dl_src,
    {
        self.dl_src.clone()
    }

    /// The link-layer destination address.
    pub fn dl_dst(&self) -> (a: Address)
        ensures
            a@ == self@.dl_dst,
    {
        self.dl_dst.clone()
    }

    /// The network source address.
    pub fn src(&self) -> (a: Address)
        ensures
            a@ == self@.src,
    {
        self.src.clone()
    }

    /// The network destination address.
    pub fn dst(&self) -> (a: Address)
        ensures
            a@ == self@.dst,
    {
        self.dst.clone()
    }
}

} // verus!
