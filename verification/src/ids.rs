//! Fixed-size identifiers: contract ids, wasm hashes and account addresses.
use vstd::prelude::*;

verus! {

/// A 32-byte value: a contract id, a wasm hash or a salt.
#[derive(Clone, Copy, Debug, PartialEq, Eq)]
pub struct BytesN32 {
    pub bytes: [u8; 32],
}

/// An account or contract address, held as the bytes of its strkey (the text form
/// that names it uniquely, such as `G...` for an account or `C...` for a contract).
#[derive(Debug, PartialEq, Eq)]
pub struct Address {
    pub strkey: Vec<u8>,
}

impl View for Address {
    type V = Seq<u8>;

    open spec fn view(&self) -> Seq<u8> {
        self.strkey@
    }
}

impl Address {
    /// Whether both name the same address.
    pub fn same_as(&self, other: &Address) -> (r: bool)
        ensures
            r == (self@ == other@),
    {
        if self.strkey.len() != other.strkey.len() {
            return false;
        }
        let mut i: usize = 0;
        while i < self.strkey.len()
            invariant
                i <= self.strkey.len(),
                self.strkey.len() == other.strkey.len(),
                forall|j: int| 0 <= j < i ==> self.strkey@[j] == other.strkey@[j],
            decreases self.strkey.len() - i,
        {
            if self.strkey[i] != other.strkey[i] {
                return false;
            }
            i = i + 1;
        }
        assert(self@ =~= other@);
        true
    }

    /// Another value naming the same address.
    pub fn duplicate(&self) -> (r: Address)
        ensures
            r@ == self@,
    {
        Address { strkey: self.strkey.clone() }
    }
}

impl View for BytesN32 {
    type V = Seq<u8>;

    open spec fn view(&self) -> Seq<u8> {
        self.bytes@
    }
}

impl BytesN32 {
    /// Whether both hold the same bytes.
    pub fn same_as(&self, other: &BytesN32) -> (r: bool)
        ensures
            r == (self@ == other@),
    {
        let mut i: usize = 0;
        while i < 32
            invariant
                i <= 32,
                forall|j: int| 0 <= j < i ==> self.bytes@[j] == other.bytes@[j],
            decreases 32 - i,
        {
            if self.bytes[i] != other.bytes[i] {
                return false;
            }
            i = i + 1;
        }
        assert(self@ =~= other@);
        true
    }

    /// A copy whose byte at `index` is `value`.
    pub fn with_byte(&self, index: usize, value: u8) -> (r: BytesN32)
        requires
            index < 32,
        ensures
            r@ == self@.update(index as int, value),
    {
        let mut bytes = self.bytes;
        bytes[index] = value;
        BytesN32 { bytes }
    }
}

} // verus!
