//! Identities on the ledger.

use vstd::prelude::*;

verus! {

/// The identity of a holder, an authority, a program or a record: 32 bytes.
#[derive(Clone, Copy, Eq, Debug)]
pub struct Address {
    pub bytes: [u8; 32],
}

impl PartialEq for Address {
    fn eq(&self, other: &Address) -> (same: bool) {
        let mut i: usize = 0;
        while i < 32
            invariant
                i <= 32,
                forall|k: int| 0 <= k < i ==> self.bytes[k] == other.bytes[k],
            decreases 32 - i,
        {
            if self.bytes[i] != other.bytes[i] {
                return false;
            }
            i = i + 1;
        }
        assert(self.bytes =~= other.bytes);
        true
    }
}

impl vstd::std_specs::cmp::PartialEqSpecImpl for Address {
    open spec fn obeys_eq_spec() -> bool {
        true
    }

    open spec fn eq_spec(&self, other: &Address) -> bool {
        *self == *other
    }
}

impl Address {
    /// The address whose bytes are `bytes`.
    pub open spec fn from_seq(bytes: Seq<u8>) -> Address {
        choose|a: Address| a.bytes@ == bytes
    }

    /// An address is determined by its bytes.
    pub proof fn lemma_from_seq(self)
        ensures
            Address::from_seq(self.bytes@) == self,
    {
        let found = Address::from_seq(self.bytes@);
        assert(found.bytes =~= self.bytes);
    }

    /// Two addresses with the same bytes are the same address.
    pub proof fn lemma_same_bytes(self, other: Address)
        requires
            self.bytes@ == other.bytes@,
        ensures
            self == other,
    {
        assert(self.bytes =~= other.bytes);
    }

    /// The address with the given bytes.
    pub fn new(bytes: [u8; 32]) -> (address: Address)
        ensures
            address.bytes == bytes,
    {
        Address { bytes }
    }

    /// Whether this is the address that was derived, if one was.
    pub fn is_derived(&self, derived: &Option<Address>) -> (same: bool)
        ensures
            same == (*derived == Some(*self)),
    {
        match derived {
            Some(address) => *address == *self,
            None => false,
        }
    }

    /// The 32 bytes, in order.
    pub fn to_vec(&self) -> (bytes: Vec<u8>)
        ensures
            bytes@ == self.bytes@,
    {
        let mut bytes: Vec<u8> = Vec::new();
        let mut i: usize = 0;
        while i < 32
            invariant
                i <= 32,
                bytes@ == self.bytes@.subrange(0, i as int),
            decreases 32 - i,
        {
            bytes.push(self.bytes[i]);
            i = i + 1;
        }
        bytes
    }
}

} // verus!
