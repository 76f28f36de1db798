use crate::types::AddressError;
use vstd::prelude::*;
use vstd::std_specs::cmp::PartialEqSpecImpl;

verus! {

/// What an address holds: its type, its length in bytes, and its bytes unless it has none.
pub struct AddressModel {
    pub kind: i32,
    pub len: i32,
    pub data: Option<Seq<u8>>,
}

/// Two addresses are equal when their types and lengths are, and either they are empty,
/// neither has bytes, or both have the same bytes.
pub open spec fn address_eq(a: AddressModel, b: AddressModel) -> bool {
    &&& a.kind == b.kind
    &&& a.len == b.len
    &&& {
        ||| a.len == 0
        ||| (a.data is None && b.data is None)
        ||| (a.data matches Some(x) && b.data matches Some(y) && x == y)
    }
}

/// A network address of a packet, such as its source or destination.
#[derive(Debug, Hash)]
pub struct Address {
    kind: i32,
    len: i32,
    data: Option<Vec<u8>>,
}

impl Address {
    #[verifier::type_invariant]
    spec fn well_formed(self) -> bool {
        &&& self.data matches Some(d) ==> d.len() == self.len
        &&& self.len == 0 ==> self.data is None
    }
}

impl View for Address {
    type V = AddressModel;

    closed spec fn view(&self) -> AddressModel {
        AddressModel {
            kind: self.kind,
            len: self.len,
            data: match self.data {
                Some(d) => Some(d@),
                None => None,
            },
        }
    }
}

impl AddressModel {
    /// The bytes agree with the length, and an empty address holds no bytes.
    pub open spec fn valid(self) -> bool {
        &&& self.data matches Some(d) ==> d.len() == self.len
        &&& self.len == 0 ==> self.data is None
    }
}

impl Address {
    /// An address of type `kind` and length `len` holding `data`; an empty address keeps no
    /// bytes.
    pub fn new(kind: i32, len: i32, data: Option<Vec<u8>>) -> (a: Address)
        requires
            data matches Some(d) ==> d.len() == len,
        ensures
            a@ == (AddressModel {
                kind,
                len,
                data: if len == 0 {
                    None
                } else {
                    match data {
                        Some(d) => Some(d@),
                        None => None,
                    }
                },
            }),
            a@.valid(),
    {
        if len == 0 {
            Address { kind, len, data: None }
        } else {
            Address { kind, len, data }
        }
    }

    /// The bytes of the address: none for an empty address; `InvalidLength` when the length
    /// is negative and `CopyFailed` when a non-empty address holds no bytes.
    pub fn to_bytes(&self) -> (res: Result<Vec<u8>, AddressError>)
        ensures
            self@.len < 0 ==> res matches Err(AddressError::InvalidLength(_)),
            self@.len == 0 ==> (res matches Ok(b) && b@.len() == 0),
            self@.len > 0 && self@.data is None ==> res matches Err(AddressError::CopyFailed),
            self@.len > 0 && self@.data is Some ==> (res matches Ok(b) && b@
                == self@.data.unwrap()),
    {
        proof {
            use_type_invariant(self);
        }
        let length = match u32::try_from(self.len) {
            Ok(l) => l,
            Err(e) => return Err(AddressError::InvalidLength(e)),
        };
        if length == 0 {
            return Ok(Vec::new());
        }
        match &self.data {
            Some(d) => Ok(d.clone()),
            None => Err(AddressError::CopyFailed),
        }
    }
}

impl Clone for Address {
    fn clone(&self) -> (a: Self)
        ensures
            a@ == self@,
    {
        proof {
            use_type_invariant(self);
        }
        let data = match &self.data {
            Some(d) => {
                let c = d.clone();
                assert(c@ =~= d@);
                Some(c)
            },
            None => None,
        };
        Address { kind: self.kind, len: self.len, data }
    }
}

impl PartialEq for Address {
    fn eq(&self, other: &Self) -> (r: bool) {
        if self.kind != other.kind || self.len != other.len {
            return false;
        }
        if self.len == 0 {
            return true;
        }
        match (&self.data, &other.data) {
            (None, None) => true,
            (Some(x), Some(y)) => {
                let same = x == y;
                proof {
                    if same {
                        assert(x@ =~= y@);
                    }
                }
                same
            },
            _ => false,
        }
    }
}

impl PartialEqSpecImpl for Address {
    open spec fn obeys_eq_spec() -> bool {
        true
    }

    open spec fn eq_spec(&self, other: &Address) -> bool {
        address_eq(self@, other@)
    }
}

impl Eq for Address {

}

/// Equal addresses hold the same type, length and bytes, so they hash alike.
pub proof fn lemma_equal_addresses_are_identical(a: AddressModel, b: AddressModel)
    requires
        a.valid(),
        b.valid(),
        address_eq(a, b),
    ensures
        a == b,
{
}

/// Address equality is reflexive, symmetric and transitive.
pub proof fn lemma_address_eq_is_equivalence(a: AddressModel, b: AddressModel, c: AddressModel)
    requires
        a.valid(),
        b.valid(),
        c.valid(),
    ensures
        address_eq(a, a),
        address_eq(a, b) ==> address_eq(b, a),
        address_eq(a, b) && address_eq(b, c) ==> address_eq(a, c),
{
}

} // verus!
