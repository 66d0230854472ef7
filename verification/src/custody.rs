use vstd::prelude::*;
use crate::address::Address;
use crate::host::{find_program_address, program_address};

verus! {

/// The identity under which the program holds deposits in custody. Nobody
/// holds a key to it: it is derived from a fixed seed and the program's own
/// address, and the host lets only the program speak for it.
#[derive(Clone, Copy, Debug, PartialEq, Eq)]
pub struct CustodyAuthority {
    /// The derived address.
    pub address: Address,
    /// The value that completes the seed.
    pub bump: u8,
}

impl View for CustodyAuthority {
    type V = (Seq<u8>, u8);

    open spec fn view(&self) -> (Seq<u8>, u8) {
        (self.address@, self.bump)
    }
}

/// The seed of the custody identity: the letters of "escrow".
pub open spec fn custody_seed() -> Seq<u8> {
    seq![101u8, 115u8, 99u8, 114u8, 111u8, 119u8]
}

/// The custody identity of a program, if the host can derive one.
pub open spec fn custody_authority(program_id: Seq<u8>) -> Option<(Seq<u8>, u8)> {
    program_address(custody_seed(), program_id)
}

/// An authority that may be missing, as contracts speak of it.
pub open spec fn authority_view(authority: Option<CustodyAuthority>) -> Option<(Seq<u8>, u8)> {
    match authority {
        Some(a) => Some(a@),
        None => None,
    }
}

impl CustodyAuthority {
    /// The bytes of the seed.
    pub fn seed() -> (seed: Vec<u8>)
        ensures
            seed@ == custody_seed(),
    {
        let seed: Vec<u8> = vec![101u8, 115u8, 99u8, 114u8, 111u8, 119u8];
        assert(seed@ =~= custody_seed());
        seed
    }

    /// Derives the custody identity of a program.
    pub fn derive(program_id: &Address) -> (authority: Option<CustodyAuthority>)
        ensures
            authority_view(authority) == custody_authority(program_id@),
    {
        let seed = Self::seed();
        match find_program_address(seed.as_slice(), program_id) {
            Some(pair) => Some(CustodyAuthority { address: pair.0, bump: pair.1 }),
            None => None,
        }
    }
}

} // verus!
