use crate::handles::{insert_all, lemma_insert_all_covers, lookup};
use crate::packet::{no_nul, PacketInfo, PacketInfoModel};
use crate::protocol::{owned, Protocol, ProtocolModel, ROOT_ETT_ID};
use crate::tvb::{RangeModel, Tvb, TvbRange};
use crate::types::{
    encoding_code, DissectorHandleError, Encoding, ExpertError, TreeError, TreeResult, TvbError,
};
use vstd::prelude::*;
use vstd::string::StringExecFns;

verus! {

/// Why decoding the bytes of a range into a new buffer failed.
#[derive(Debug)]
pub enum TransformError<E> {
    /// The decoding itself failed.
    Transform(E),
    /// The decoded bytes are too many for a buffer.
    Buffer(TvbError),
}

/// An expert info entry attached to an item: the item, the handles of the entry, and its
/// custom text; without one, the item shows the summary registered for the entry.
pub struct ExpertEntry {
    pub item: TreeItem,
    pub ei: i32,
    pub hf: i32,
    pub text: Option<String>,
}

/// An item of the protocol tree: the field it shows, the bytes it covers, how they are
/// encoded, the subtree type it opens (if it is a subtree), the item it lies under, and the
/// text that dissection gave it.
pub struct TreeNode {
    pub field: i32,
    pub tvb: Tvb,
    pub offset: i32,
    pub length: i32,
    pub encoding: u32,
    pub ett: Option<i32>,
    pub parent: Option<usize>,
    pub text: Option<String>,
    pub appended: String,
}

/// `n` is a new item of `field` over `range`, under `parent`, with nothing attached yet.
pub open spec fn new_node(
    n: TreeNode,
    field: i32,
    range: RangeModel,
    encoding: u32,
    ett: Option<i32>,
    parent: usize,
) -> bool {
    &&& n.field == field
    &&& n.tvb@ == range.tvb
    &&& n.offset == range.offset
    &&& n.length == range.length
    &&& n.encoding == encoding
    &&& n.ett == ett
    &&& n.parent == Some(parent)
    &&& n.text is None
    &&& n.appended@ == Seq::<char>::empty()
}

/// Handle of an item of a protocol tree: the tree it belongs to and its index among that
/// tree's items.
#[derive(Clone, Copy, Debug)]
pub struct TreeItem {
    tree: u64,
    node: usize,
}

/// What an item handle names: the tree, by the handle of the Wireshark tree its protocol item
/// was added under, and the index of the item in it.
pub struct ItemModel {
    pub tree: u64,
    pub node: int,
}

impl View for TreeItem {
    type V = ItemModel;

    closed spec fn view(&self) -> ItemModel {
        ItemModel { tree: self.tree, node: self.node as int }
    }
}

/// The protocol tree of one packet as a dissector builds it, together with the protocol it
/// belongs to and the packet's information.
pub struct Tree<'a, D> {
    protocol: &'a Protocol<D>,
    pub pinfo: PacketInfo,
    id: u64,
    nodes: Vec<TreeNode>,
    current: usize,
    expert_infos: Vec<ExpertEntry>,
}

/// What a tree holds: its protocol, the packet's information, the handle of the Wireshark
/// tree that its protocol item went under, the items in the order they were added, the
/// subtree that new items go into, and the expert infos attached to items, in order.
pub struct TreeModel<D> {
    pub protocol: ProtocolModel<D>,
    pub pinfo: PacketInfoModel,
    pub id: u64,
    pub nodes: Seq<TreeNode>,
    pub current: int,
    pub expert_infos: Seq<ExpertEntry>,
}

impl<'a, D> View for Tree<'a, D> {
    type V = TreeModel<D>;

    closed spec fn view(&self) -> TreeModel<D> {
        TreeModel {
            protocol: self.protocol@,
            pinfo: self.pinfo@,
            id: self.id,
            nodes: self.nodes@,
            current: self.current as int,
            expert_infos: self.expert_infos@,
        }
    }
}

/// The subtree type of the item `field_id`: the type named after the field with `_ett`
/// appended, else the protocol's root type.
pub open spec fn subtree_ett<D>(p: ProtocolModel<D>, field_id: Seq<char>) -> Option<i32> {
    match lookup(p.ett_handles, field_id + "_ett"@) {
        Some(e) => Some(e),
        None => lookup(p.ett_handles, ROOT_ETT_ID@),
    }
}

impl<D> TreeModel<D> {
    /// The current subtree is an item of the tree that opens a subtree, and every item lies
    /// under an earlier item that opens a subtree.
    pub open spec fn valid(self) -> bool {
        &&& 0 <= self.current < self.nodes.len()
        &&& self.nodes[self.current].ett is Some
        &&& forall|i: int|
            0 <= i < self.nodes.len() ==> match (#[trigger] self.nodes[i]).parent {
                Some(p) => p < i && self.nodes[p as int].ett is Some,
                None => true,
            }
    }

    /// `item` names an item of this tree.
    pub open spec fn holds(self, item: ItemModel) -> bool {
        item.tree == self.id && 0 <= item.node < self.nodes.len()
    }

    /// The tree with the subtree of `item` current, if it is an item of this tree that opens
    /// a subtree.
    pub open spec fn entered(self, item: ItemModel) -> Option<TreeModel<D>> {
        if self.holds(item) && self.nodes[item.node].ett is Some {
            Some(TreeModel { current: item.node, ..self })
        } else {
            None
        }
    }

    /// The tree with the subtree that contains the current one current, if there is one.
    pub open spec fn left(self) -> Option<TreeModel<D>> {
        if 0 <= self.current < self.nodes.len() && self.nodes[self.current].parent is Some {
            Some(TreeModel { current: self.nodes[self.current].parent.unwrap() as int, ..self })
        } else {
            None
        }
    }

    /// The model with the item at `i` replaced by `n`.
    pub open spec fn with_node(self, i: int, n: TreeNode) -> TreeModel<D> {
        TreeModel { nodes: self.nodes.update(i, n), ..self }
    }

    /// `self` is `old` with one more item, `n`, and no other change.
    pub open spec fn appended(self, old: TreeModel<D>) -> bool {
        &&& self.nodes.len() == old.nodes.len() + 1
        &&& self.nodes.drop_last() == old.nodes
        &&& self == TreeModel { nodes: self.nodes, ..old }
    }

    /// Why adding `field_id` over `range` fails before any item is added, if it does: the
    /// field is not registered, or not every byte of the range was captured.
    pub open spec fn add_precheck(self, field_id: Seq<char>, range: RangeModel) -> Option<Seq<char>> {
        if lookup(self.protocol.field_handles, field_id) is None {
            Some("Field '"@ + field_id + "' not found"@)
        } else if !range.readable(range.length) {
            Some("TvbRange extends beyond packet data"@)
        } else {
            None
        }
    }
}

/// Message of the error for an item whose field is not registered.
fn field_not_found(field_id: &str) -> (m: String)
    ensures
        m@ == "Field '"@ + field_id@ + "' not found"@,
{
    let mut m = owned("Field '");
    m.append(field_id);
    m.append("' not found");
    m
}

impl<'a, D> Tree<'a, D> {
    /// The protocol tree of a packet: an item of the protocol itself over the bytes of `tvb`
    /// from `offset` on, added under the Wireshark tree whose handle is `parent`, and turned
    /// into a subtree of the protocol's root type. The item is added in any case; the result
    /// beside the tree is the packet's buffer, or `EttNotFound` when the root subtree type has
    /// no handle, in which case the item opens no subtree.
    pub fn new(protocol: &'a Protocol<D>, pinfo: PacketInfo, parent: u64, tvb: Tvb, offset: i32) -> (res:
        (Tree<'a, D>, TreeResult<Tvb>))
        ensures
            res.0@.protocol == protocol@,
            res.0@.pinfo == pinfo@,
            res.0@.id == parent,
            res.0@.nodes.len() == 1,
            res.0@.current == 0,
            res.0@.expert_infos.len() == 0,
            res.0@.nodes[0].field == protocol@.proto_handle,
            res.0@.nodes[0].tvb@ == tvb@,
            res.0@.nodes[0].offset == offset,
            res.0@.nodes[0].length == -1,
            res.0@.nodes[0].encoding == encoding_code(Encoding::NA),
            res.0@.nodes[0].ett == lookup(protocol@.ett_handles, ROOT_ETT_ID@),
            res.0@.nodes[0].parent is None,
            res.0@.nodes[0].text is None,
            res.0@.nodes[0].appended@ == Seq::<char>::empty(),
            lookup(protocol@.ett_handles, ROOT_ETT_ID@) is None ==> (res.1 matches Err(
                TreeError::EttNotFound(m),
            ) && m@ == "Ett '_root' not found"@),
            lookup(protocol@.ett_handles, ROOT_ETT_ID@) is Some ==> (res.1 matches Ok(b) && b@
                == tvb@ && res.0@.valid()),
    {
        let ett = protocol.get_ett_handle(ROOT_ETT_ID);
        let root = TreeNode {
            field: protocol.get_proto_handle(),
            tvb: tvb.clone(),
            offset,
            length: -1,
            encoding: Encoding::NA.to_u32(),
            ett,
            parent: None,
            text: None,
            appended: String::new(),
        };
        let mut nodes: Vec<TreeNode> = Vec::new();
        nodes.push(root);
        let t = Tree { protocol, pinfo, id: parent, nodes, current: 0, expert_infos: Vec::new() };
        if ett.is_none() {
            let mut m = owned("Ett '");
            m.append(ROOT_ETT_ID);
            m.append("' not found");
            proof {
                reveal_strlit("Ett '");
                reveal_strlit("_root");
                reveal_strlit("' not found");
                reveal_strlit("Ett '_root' not found");
                assert(m@ =~= "Ett '_root' not found"@);
            }
            return (t, Err(TreeError::EttNotFound(m)));
        }
        (t, Ok(tvb))
    }

    /// Adds an item of `field_id` over `range` under the current subtree, turned into a
    /// subtree if `subtree` is set.
    fn add_node(&mut self, field_id: &str, range: &TvbRange, encoding: u32, subtree: bool) -> (res:
        TreeResult<TreeItem>)
        ensures
            old(self)@.add_precheck(field_id@, range@) matches Some(msg) ==> (res matches Err(
                TreeError::AddItemFailed(m),
            ) && m@ == msg && final(self)@ == old(self)@),
            old(self)@.add_precheck(field_id@, range@) is None ==> {
                let ett = if subtree {
                    subtree_ett(old(self)@.protocol, field_id@)
                } else {
                    None
                };
                &&& final(self)@.appended(old(self)@)
                &&& new_node(
                    final(self)@.nodes.last(),
                    lookup(old(self)@.protocol.field_handles, field_id@).unwrap(),
                    range@,
                    encoding,
                    ett,
                    old(self)@.current as usize,
                )
                &&& subtree && ett is None ==> (res matches Err(TreeError::EttNotFound(m))
                    && m@ == "No suitable ETT found"@)
                &&& !(subtree && ett is None) ==> (res matches Ok(item) && item@
                    == (ItemModel { tree: old(self)@.id, node: old(self)@.nodes.len() as int }))
            },
            old(self)@.valid() ==> final(self)@.valid(),
    {
        let handle = match self.protocol.get_field_handle(field_id) {
            Some(h) => h,
            None => return Err(TreeError::AddItemFailed(field_not_found(field_id))),
        };
        if !range.bytes_exist() {
            return Err(TreeError::AddItemFailed(owned("TvbRange extends beyond packet data")));
        }
        let ett = if subtree {
            let mut ett_id = owned(field_id);
            ett_id.append("_ett");
            match self.protocol.get_ett_handle(ett_id.as_str()) {
                Some(e) => Some(e),
                None => self.protocol.get_ett_handle(ROOT_ETT_ID),
            }
        } else {
            None
        };
        let index = self.nodes.len();
        let node = TreeNode {
            field: handle,
            tvb: range.tvb(),
            offset: range.offset(),
            length: range.length(),
            encoding,
            ett,
            parent: Some(self.current),
            text: None,
            appended: String::new(),
        };
        let ghost before = self.nodes@;
        self.nodes.push(node);
        assert(self.nodes@.drop_last() =~= before);
        if subtree && ett.is_none() {
            return Err(TreeError::EttNotFound(owned("No suitable ETT found")));
        }
        Ok(TreeItem { tree: self.id, node: index })
    }

    /// Adds an item of the field `field_id` over `range` under the current subtree and makes
    /// it a subtree, whose type is the one named `<field_id>_ett` or else the root type; the
    /// item's handle is returned, and [`Tree::enter`] makes the new subtree current. Fails
    /// with `AddItemFailed` when the field is not registered or not all bytes of the range
    /// were captured, and with `EttNotFound` (the item having been added without a subtree)
    /// when neither subtree type has a handle.
    pub fn add(&mut self, field_id: &str, range: TvbRange) -> (res: TreeResult<TreeItem>)
        ensures
            old(self)@.add_precheck(field_id@, range@) matches Some(msg) ==> (res matches Err(
                TreeError::AddItemFailed(m),
            ) && m@ == msg && final(self)@ == old(self)@),
            old(self)@.add_precheck(field_id@, range@) is None ==> {
                let ett = subtree_ett(old(self)@.protocol, field_id@);
                &&& final(self)@.appended(old(self)@)
                &&& new_node(
                    final(self)@.nodes.last(),
                    lookup(old(self)@.protocol.field_handles, field_id@).unwrap(),
                    range@,
                    encoding_code(Encoding::NA),
                    ett,
                    old(self)@.current as usize,
                )
                &&& ett is None ==> (res matches Err(TreeError::EttNotFound(m)) && m@
                    == "No suitable ETT found"@)
                &&& ett is Some ==> (res matches Ok(item) && item@ == (ItemModel { tree: old(self)@.id, node: old(self)@.nodes.len() as int }))
            },
            old(self)@.valid() ==> final(self)@.valid(),
    {
        self.add_node(field_id, &range, Encoding::NA.to_u32(), true)
    }

    /// As [`Tree::add`], with the bytes read in the given encoding.
    pub fn add_with_encoding(&mut self, field_id: &str, range: TvbRange, encoding: Encoding) -> (res:
        TreeResult<TreeItem>)
        ensures
            old(self)@.add_precheck(field_id@, range@) matches Some(msg) ==> (res matches Err(
                TreeError::AddItemFailed(m),
            ) && m@ == msg && final(self)@ == old(self)@),
            old(self)@.add_precheck(field_id@, range@) is None ==> {
                let ett = subtree_ett(old(self)@.protocol, field_id@);
                &&& final(self)@.appended(old(self)@)
                &&& new_node(
                    final(self)@.nodes.last(),
                    lookup(old(self)@.protocol.field_handles, field_id@).unwrap(),
                    range@,
                    encoding_code(encoding),
                    ett,
                    old(self)@.current as usize,
                )
                &&& ett is None ==> (res matches Err(TreeError::EttNotFound(m)) && m@
                    == "No suitable ETT found"@)
                &&& ett is Some ==> (res matches Ok(item) && item@ == (ItemModel { tree: old(self)@.id, node: old(self)@.nodes.len() as int }))
            },
            old(self)@.valid() ==> final(self)@.valid(),
    {
        self.add_node(field_id, &range, encoding.to_u32(), true)
    }

    /// Adds an item of the field `field_id` over `range` under the current subtree and
    /// returns its handle. Fails with `AddItemFailed` when the field is not registered or not
    /// all bytes of the range were captured.
    pub fn add_item(&mut self, field_id: &str, range: TvbRange) -> (res: TreeResult<TreeItem>)
        ensures
            old(self)@.add_precheck(field_id@, range@) matches Some(msg) ==> (res matches Err(
                TreeError::AddItemFailed(m),
            ) && m@ == msg && final(self)@ == old(self)@),
            old(self)@.add_precheck(field_id@, range@) is None ==> {
                &&& final(self)@.appended(old(self)@)
                &&& new_node(
                    final(self)@.nodes.last(),
                    lookup(old(self)@.protocol.field_handles, field_id@).unwrap(),
                    range@,
                    encoding_code(Encoding::NA),
                    None,
                    old(self)@.current as usize,
                )
                &&& res matches Ok(item) && item@ == (ItemModel { tree: old(self)@.id, node: old(self)@.nodes.len() as int })
            },
            old(self)@.valid() ==> final(self)@.valid(),
    {
        self.add_node(field_id, &range, Encoding::NA.to_u32(), false)
    }

    /// As [`Tree::add_item`], with the bytes read in the given encoding.
    pub fn add_item_with_encoding(
        &mut self,
        field_id: &str,
        range: TvbRange,
        encoding: Encoding,
    ) -> (res: TreeResult<TreeItem>)
        ensures
            old(self)@.add_precheck(field_id@, range@) matches Some(msg) ==> (res matches Err(
                TreeError::AddItemFailed(m),
            ) && m@ == msg && final(self)@ == old(self)@),
            old(self)@.add_precheck(field_id@, range@) is None ==> {
                &&& final(self)@.appended(old(self)@)
                &&& new_node(
                    final(self)@.nodes.last(),
                    lookup(old(self)@.protocol.field_handles, field_id@).unwrap(),
                    range@,
                    encoding_code(encoding),
                    None,
                    old(self)@.current as usize,
                )
                &&& res matches Ok(item) && item@ == (ItemModel { tree: old(self)@.id, node: old(self)@.nodes.len() as int })
            },
            old(self)@.valid() ==> final(self)@.valid(),
    {
        self.add_node(field_id, &range, encoding.to_u32(), false)
    }

    /// Attaches the expert info entry `expert_id` to `item`, with a custom text or else the
    /// summary registered for it. Fails with `FieldNotFound` when the entry is not registered.
    pub fn add_expert_info(&mut self, item: &mut TreeItem, expert_id: &str, text: Option<&str>) -> (res:
        Result<(), ExpertError>)
        requires
            lookup(old(self)@.protocol.expert_handles, expert_id@) is Some && text is Some
                ==> no_nul(text.unwrap()@),
        ensures
            final(item)@ == old(item)@,
            lookup(old(self)@.protocol.expert_handles, expert_id@) is None ==> (res matches Err(
                ExpertError::FieldNotFound(m),
            ) && m@ == expert_id@ && final(self)@ == old(self)@),
            lookup(old(self)@.protocol.expert_handles, expert_id@) matches Some(h) ==> {
                let e = final(self)@.expert_infos.last();
                &&& res is Ok
                &&& final(self)@ == (TreeModel {
                    expert_infos: final(self)@.expert_infos,
                    ..old(self)@
                })
                &&& final(self)@.expert_infos.len() == old(self)@.expert_infos.len() + 1
                &&& final(self)@.expert_infos.drop_last() == old(self)@.expert_infos
                &&& e.item@ == old(item)@
                &&& e.ei == h.ei
                &&& e.hf == h.hf
                &&& match text {
                    Some(t) => e.text matches Some(s) && s@ == t@,
                    None => e.text is None,
                }
            },
            old(self)@.valid() ==> final(self)@.valid(),
    {
        let handle = match self.protocol.get_expert_field(expert_id) {
            Some(h) => h,
            None => return Err(ExpertError::FieldNotFound(owned(expert_id))),
        };
        let entry = ExpertEntry {
            item: *item,
            ei: handle.ei,
            hf: handle.hf,
            text: match text {
                Some(t) => Some(owned(t)),
                None => None,
            },
        };
        let ghost before = self.expert_infos@;
        self.expert_infos.push(entry);
        assert(self.expert_infos@.drop_last() =~= before);
        Ok(())
    }

    /// Replaces the text of the current subtree's item.
    pub fn set_text(&mut self, text: &str)
        requires
            no_nul(text@),
        ensures
            !(0 <= old(self)@.current < old(self)@.nodes.len()) ==> final(self)@ == old(self)@,
            0 <= old(self)@.current < old(self)@.nodes.len() ==> ({
                let i = old(self)@.current;
                let n = old(self)@.nodes[i];
                let m = final(self)@.nodes[i];
                &&& final(self)@ == old(self)@.with_node(i, m)
                &&& m == TreeNode { text: m.text, appended: m.appended, ..n }
                &&& m.text matches Some(s) && s@ == text@
                &&& m.appended@ == Seq::<char>::empty()
            }),
            old(self)@.valid() ==> final(self)@.valid(),
    {
        let i = self.current;
        if i < self.nodes.len() {
            let ghost before = self.nodes@;
            self.nodes[i].text = Some(owned(text));
            self.nodes[i].appended = String::new();
            assert(self.nodes@ =~= before.update(i as int, self.nodes@[i as int]));
        }
    }

    /// Appends to the text of the current subtree's item.
    pub fn append_text(&mut self, text: &str)
        requires
            no_nul(text@),
        ensures
            !(0 <= old(self)@.current < old(self)@.nodes.len()) ==> final(self)@ == old(self)@,
            0 <= old(self)@.current < old(self)@.nodes.len() ==> ({
                let i = old(self)@.current;
                let n = old(self)@.nodes[i];
                let m = final(self)@.nodes[i];
                &&& final(self)@ == old(self)@.with_node(i, m)
                &&& m == TreeNode { appended: m.appended, ..n }
                &&& m.appended@ == n.appended@ + text@
            }),
            old(self)@.valid() ==> final(self)@.valid(),
    {
        let i = self.current;
        if i < self.nodes.len() {
            self.nodes[i].appended.append(text);
        }
    }

    /// Sets the length of the current subtree's item.
    pub fn set_length(&mut self, length: i32)
        ensures
            !(0 <= old(self)@.current < old(self)@.nodes.len()) ==> final(self)@ == old(self)@,
            0 <= old(self)@.current < old(self)@.nodes.len() ==> final(self)@
                == old(self)@.with_node(
                old(self)@.current,
                TreeNode { length, ..old(self)@.nodes[old(self)@.current] },
            ),
            old(self)@.valid() ==> final(self)@.valid(),
    {
        let i = self.current;
        if i < self.nodes.len() {
            self.nodes[i].length = length;
        }
    }

    /// A new buffer holding `transformed`, the bytes that decoding made of the bytes of
    /// `range`, shown as a data source named `name`; `SubsetFailed` when the bytes are too
    /// many for a buffer.
    fn add_transformed(&mut self, range: &TvbRange, transformed: Vec<u8>, name: &str) -> (res:
        Result<Tvb, TvbError>)
        requires
            transformed.len() <= i32::MAX ==> no_nul(name@),
        ensures
            transformed.len() <= i32::MAX ==> (res matches Ok(t) && t@.captured
                == transformed@ && t@.reported == transformed.len() && final(self)@ == (TreeModel {
                pinfo: PacketInfoModel {
                    data_sources: old(self)@.pinfo.data_sources.push((t@, name@)),
                    ..old(self)@.pinfo
                },
                ..old(self)@
            })),
            transformed.len() > i32::MAX ==> (res matches Err(TvbError::SubsetFailed) && final(self)@ == old(self)@),
    {
        if transformed.len() > i32::MAX as usize {
            return Err(TvbError::SubsetFailed);
        }
        let len = transformed.len() as u32;
        let next_tvb = range.tvb().new_child_real_data(transformed, len)?;
        self.pinfo.add_data_source(&next_tvb, name);
        Ok(next_tvb)
    }

    /// Decodes the bytes of `range` (decompresses them, say) with `transform_fn`, called once
    /// on them, and shows the result as a new buffer, a data source named `name`. Fails with
    /// the transform's own error, or with `SubsetFailed` when the decoded bytes are too many
    /// for a buffer; nothing is added then.
    pub fn transform_data<E, F>(&mut self, range: TvbRange, transform_fn: F, name: &str) -> (res:
        Result<Tvb, TransformError<E>>) where F: FnOnce(&[u8]) -> Result<Vec<u8>, E>
        requires
            forall|s: &[u8]| s@ == range@.contents() ==> #[trigger] transform_fn.requires((s,)),
            no_nul(name@) || forall|s: &[u8], out: Result<Vec<u8>, E>|
                #[trigger] transform_fn.ensures((s,), out) && s@ == range@.contents() ==> !(
                out matches Ok(v) && v.len() <= i32::MAX),
        ensures
            exists|s: &[u8], out: Result<Vec<u8>, E>|
                {
                    &&& s@ == range@.contents()
                    &&& #[trigger] transform_fn.ensures((s,), out)
                    &&& match out {
                        Err(e) => res == Err::<Tvb, TransformError<E>>(TransformError::Transform(e))
                            && final(self)@ == old(self)@,
                        Ok(v) => if v.len() <= i32::MAX {
                            res matches Ok(t) && t@.captured == v@ && t@.reported == v.len()
                                && final(self)@ == (TreeModel {
                                pinfo: PacketInfoModel {
                                    data_sources: old(self)@.pinfo.data_sources.push((t@, name@)),
                                    ..old(self)@.pinfo
                                },
                                ..old(self)@
                            })
                        } else {
                            res matches Err(TransformError::Buffer(TvbError::SubsetFailed))
                                && final(self)@ == old(self)@
                        },
                    }
                },
    {
        let src = range.bytes();
        let bytes = src.as_slice();
        let out = transform_fn(bytes);
        match out {
            Err(e) => Err(TransformError::Transform(e)),
            Ok(v) => match self.add_transformed(&range, v, name) {
                Ok(t) => Ok(t),
                Err(e) => Err(TransformError::Buffer(e)),
            },
        }
    }

    /// The protocol this tree belongs to.
    pub fn protocol(&self) -> (p: &Protocol<D>)
        ensures
            p@ == self@.protocol,
    {
        self.protocol
    }

    /// Makes the subtree of `item` current, so that new items go into it. Fails with
    /// `InvalidSubtreeOperation` when `item` is not a subtree of this tree.
    pub fn enter(&mut self, item: &TreeItem) -> (res: TreeResult<()>)
        ensures
            old(self)@.entered(item@) matches Some(t) ==> (res is Ok && final(self)@ == t),
            old(self)@.entered(item@) is None ==> (res matches Err(
                TreeError::InvalidSubtreeOperation(m),
            ) && m@ == "Item is not a subtree"@ && final(self)@ == old(self)@),
            old(self)@.valid() ==> final(self)@.valid(),
    {
        if item.tree == self.id && item.node < self.nodes.len() && self.nodes[item.node].ett.is_some() {
            self.current = item.node;
            Ok(())
        } else {
            Err(TreeError::InvalidSubtreeOperation(owned("Item is not a subtree")))
        }
    }

    /// Makes the subtree that contains the current one current again. Fails with
    /// `InvalidSubtreeOperation` at the root.
    pub fn leave(&mut self) -> (res: TreeResult<()>)
        ensures
            old(self)@.left() matches Some(t) ==> (res is Ok && final(self)@ == t),
            old(self)@.left() is None ==> (res matches Err(TreeError::InvalidSubtreeOperation(m))
                && m@ == "The root has no parent"@ && final(self)@ == old(self)@),
            old(self)@.valid() ==> final(self)@.valid(),
    {
        if self.current < self.nodes.len() {
            if let Some(p) = self.nodes[self.current].parent {
                self.current = p;
                return Ok(());
            }
        }
        Err(TreeError::InvalidSubtreeOperation(owned("The root has no parent")))
    }

    /// The expert infos attached to items, in the order they were attached.
    pub fn expert_infos(&self) -> (e: &Vec<ExpertEntry>)
        ensures
            e@ == self@.expert_infos,
    {
        &self.expert_infos
    }

    /// The items of the tree, in the order they were added; the root comes first.
    pub fn nodes(&self) -> (n: &Vec<TreeNode>)
        ensures
            n@ == self@.nodes,
    {
        &self.nodes
    }
}

impl TreeItem {
    /// Replaces the text of this item of `tree`; nothing changes when it is not an item of
    /// `tree`.
    pub fn set_text<D>(&mut self, tree: &mut Tree<'_, D>, text: &str)
        requires
            no_nul(text@),
        ensures
            final(self)@ == old(self)@,
            !old(tree)@.holds(old(self)@) ==> final(tree)@ == old(tree)@,
            old(tree)@.holds(old(self)@) ==> ({
                let i = old(self)@.node;
                let n = old(tree)@.nodes[i];
                let m = final(tree)@.nodes[i];
                &&& final(tree)@ == old(tree)@.with_node(i, m)
                &&& m == TreeNode { text: m.text, appended: m.appended, ..n }
                &&& m.text matches Some(s) && s@ == text@
                &&& m.appended@ == Seq::<char>::empty()
            }),
            old(tree)@.valid() ==> final(tree)@.valid(),
    {
        if self.tree == tree.id && self.node < tree.nodes.len() {
            let i = self.node;
            let ghost before = tree.nodes@;
            tree.nodes[i].text = Some(owned(text));
            tree.nodes[i].appended = String::new();
            assert(tree.nodes@ =~= before.update(i as int, tree.nodes@[i as int]));
        }
    }

    /// Appends to the text of this item of `tree`; nothing changes when it is not an item of
    /// `tree`.
    pub fn append_text<D>(&mut self, tree: &mut Tree<'_, D>, text: &str)
        requires
            no_nul(text@),
        ensures
            final(self)@ == old(self)@,
            !old(tree)@.holds(old(self)@) ==> final(tree)@ == old(tree)@,
            old(tree)@.holds(old(self)@) ==> ({
                let i = old(self)@.node;
                let n = old(tree)@.nodes[i];
                let m = final(tree)@.nodes[i];
                &&& final(tree)@ == old(tree)@.with_node(i, m)
                &&& m == TreeNode { appended: m.appended, ..n }
                &&& m.appended@ == n.appended@ + text@
            }),
            old(tree)@.valid() ==> final(tree)@.valid(),
    {
        if self.tree == tree.id && self.node < tree.nodes.len() {
            tree.nodes[self.node].appended.append(text);
        }
    }

    /// Sets the length of this item of `tree`; nothing changes when it is not an item of
    /// `tree`.
    pub fn set_length<D>(&mut self, tree: &mut Tree<'_, D>, length: i32)
        ensures
            final(self)@ == old(self)@,
            !old(tree)@.holds(old(self)@) ==> final(tree)@ == old(tree)@,
            old(tree)@.holds(old(self)@) ==> final(tree)@ == old(tree)@.with_node(
                old(self)@.node,
                TreeNode { length, ..old(tree)@.nodes[old(self)@.node] },
            ),
            old(tree)@.valid() ==> final(tree)@.valid(),
    {
        if self.tree == tree.id && self.node < tree.nodes.len() {
            tree.nodes[self.node].length = length;
        }
    }
}

/// Entering a subtree that was added under the current one and leaving it again makes the
/// current subtree current again.
pub proof fn lemma_enter_then_leave<D>(t: TreeModel<D>, i: int)
    requires
        t.valid(),
        0 <= i < t.nodes.len(),
        t.nodes[i].ett is Some,
        t.nodes[i].parent matches Some(p) && p == t.current,
    ensures
        t.entered(ItemModel { tree: t.id, node: i }) matches Some(inner) && inner.valid()
            && inner.left() == Some(t),
{
}

/// A protocol whose subtree types start with the root type, once handles were recorded for
/// all of them, can start a protocol tree: its root type has a handle.
pub proof fn lemma_registered_protocol_has_root<D>(p: ProtocolModel<D>, ett_handles: Seq<i32>)
    requires
        p.ett_defs.len() >= 1,
        p.ett_defs[0].id@ == ROOT_ETT_ID@,
        ett_handles.len() == p.ett_defs.len(),
    ensures
        lookup(insert_all(p.ett_handles, p.ett_ids(), ett_handles), ROOT_ETT_ID@) is Some,
{
    lemma_insert_all_covers(p.ett_handles, p.ett_ids(), ett_handles, 0);
}

/// The outcome of calling another dissector: a negative return value is an error, 0 means
/// that the dissector is disabled, and a positive value is the number of bytes it consumed.
pub fn call_result(result: i32) -> (res: Result<i32, DissectorHandleError>)
    ensures
        result < 0 ==> res == Err::<i32, DissectorHandleError>(
            DissectorHandleError::Unspecified(result),
        ),
        result == 0 ==> res == Err::<i32, DissectorHandleError>(DissectorHandleError::Disabled),
        result > 0 ==> res == Ok::<i32, DissectorHandleError>(result),
{
    if result < 0 {
        Err(DissectorHandleError::Unspecified(result))
    } else if result == 0 {
        Err(DissectorHandleError::Disabled)
    } else {
        Ok(result)
    }
}

/// Dissects one packet: adds the protocol's item under the Wireshark tree `parent`, and runs
/// `dissect` on the protocol tree and the packet's buffer. The result is the number of bytes
/// that `dissect` reports to have consumed, or 0 when the root subtree type has no handle
/// (`dissect` is not run) or `dissect` fails.
pub fn process_packet<'a, D, E, F>(
    protocol: &'a Protocol<D>,
    pinfo: PacketInfo,
    parent: u64,
    tvb: Tvb,
    dissect: F,
) -> (r: i32)
    where
        F: FnOnce(&mut Tree<'a, D>, Tvb) -> Result<i32, E>,
    requires
        forall|t: &mut Tree<'a, D>, b: Tvb| dissect.requires((t, b)),
    ensures
        lookup(protocol@.ett_handles, ROOT_ETT_ID@) is None ==> r == 0,
        lookup(protocol@.ett_handles, ROOT_ETT_ID@) is Some ==> exists|
            t: &mut Tree<'a, D>,
            b: Tvb,
            res: Result<i32, E>,
        |
            {
                &&& dissect.ensures((t, b), res)
                &&& b@ == tvb@
                &&& (*t)@.protocol == protocol@
                &&& (*t)@.pinfo == pinfo@
                &&& (*t)@.id == parent
                &&& (*t)@.nodes.len() == 1
                &&& (*t)@.expert_infos.len() == 0
                &&& (*t)@.valid()
                &&& (*t)@.nodes[0].field == protocol@.proto_handle
                &&& (*t)@.nodes[0].tvb@ == tvb@
                &&& (*t)@.nodes[0].offset == 0
                &&& r == match res {
                    Ok(n) => n,
                    Err(_) => 0i32,
                }
            },
{
    let (mut tree, started) = Tree::new(protocol, pinfo, parent, tvb, 0);
    match started {
        Ok(buffer) => match dissect(&mut tree, buffer) {
            Ok(n) => n,
            Err(_) => 0,
        },
        Err(_) => 0,
    }
}

/// Additional data which may be passed to the ethertype dissector.
pub struct EthertypeData<'a, D> {
    pub etype: u16,
    pub payload_offset: i32,
    pub fh_tree: &'a Tree<'a, D>,
    pub trailer_id: i32,
    pub fcs_len: i32,
}

impl<'a, D> EthertypeData<'a, D> {
    /// Data for the given tree, with every number zero.
    pub fn new(tree: &'a Tree<'a, D>) -> (d: Self)
        ensures
            d.etype == 0,
            d.payload_offset == 0,
            d.fh_tree == tree,
            d.trailer_id == 0,
            d.fcs_len == 0,
    {
        EthertypeData { etype: 0, payload_offset: 0, fh_tree: tree, trailer_id: 0, fcs_len: 0 }
    }
}

} // verus!
