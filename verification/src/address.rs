use vstd::prelude::*;
use vstd::std_specs::cmp::PartialEqSpecImpl;

verus! {

/// The 32-byte public identity of an account, a program or a signer.
///
/// Its view is the sequence of its 32 bytes; two addresses are equal exactly
/// when their views are.
#[derive(Clone, Copy, Debug)]
pub struct Address {
    pub bytes: [u8; 32],
}

impl View for Address {
    type V = Seq<u8>;

    open spec fn view(&self) -> Seq<u8> {
        self.bytes@
    }
}

impl PartialEq for Address {
    fn eq(&self, other: &Address) -> (same: bool) {
        let mut i: usize = 0;
        while i < 32
            invariant
                i <= 32,
                forall|j: int| 0 <= j < i ==> self.bytes@[j] == other.bytes@[j],
            decreases 32 - i,
        {
            if self.bytes[i] != other.bytes[i] {
                return false;
            }
            i += 1;
        }
        assert(self.bytes@ =~= other.bytes@);
        true
    }
}

impl PartialEqSpecImpl for Address {
    open spec fn obeys_eq_spec() -> bool {
        true
    }

    open spec fn eq_spec(&self, other: &Address) -> bool {
        self@ == other@
    }
}

impl Eq for Address {}

impl Address {
    /// The address made of the given 32 bytes.
    pub fn new(bytes: [u8; 32]) -> (address: Address)
        ensures
            address@ == bytes@,
            address.bytes == bytes,
    {
        Address { bytes }
    }

    /// The address stored in the 32 bytes of `src` that start at `at`.
    pub fn read(src: &[u8], at: usize) -> (address: Address)
        requires
            at + 32 <= src@.len(),
        ensures
            address@ == src@.subrange(at as int, at + 32),
    {
        let len: usize = src.len();
        let mut bytes: [u8; 32] = [0u8; 32];
        let mut i: usize = 0;
        while i < 32
            invariant
                i <= 32,
                at + 32 <= len,
                len == src@.len(),
                forall|j: int| 0 <= j < i ==> bytes@[j] == src@[at + j],
            decreases 32 - i,
        {
            bytes[i] = src[at + i];
            i += 1;
        }
        assert(bytes@ =~= src@.subrange(at as int, at + 32));
        Address { bytes }
    }

    /// Appends the 32 bytes of the address to `dst`.
    pub fn write(&self, dst: &mut Vec<u8>)
        ensures
            final(dst)@ == old(dst)@ + self@,
    {
        let ghost before = dst@;
        let mut i: usize = 0;
        while i < 32
            invariant
                i <= 32,
                dst@ == before + self@.subrange(0, i as int),
            decreases 32 - i,
        {
            dst.push(self.bytes[i]);
            i += 1;
            assert(dst@ =~= before + self@.subrange(0, i as int));
        }
        assert(self@.subrange(0, 32) =~= self@);
    }
}

} // verus!
