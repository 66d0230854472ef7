use vstd::prelude::*;
use crate::bytes::{le_u64, read_le_u64};
use crate::error::{EscrowError, Failure};

verus! {

/// An operation of the escrow, as a request names it.
#[derive(Clone, Copy, Debug, PartialEq, Eq, Structural)]
pub enum EscrowInstruction {
    /// Opens a trade: fills the record storage and hands the custody account
    /// to the program's derived identity.
    ///
    /// Accounts, in order: the initializer (signer); the custody account
    /// (writable); the initializer's payout account; the record storage
    /// (writable); the rent account; the token service.
    InitEscrow {
        /// The amount the initializer demands in return.
        amount: u64,
    },
    /// Settles a trade: the taker pays and receives what custody holds.
    ///
    /// Accounts, in order: the taker (signer); the taker's source account
    /// (writable); the taker's destination account (writable); the custody
    /// account (writable); the initializer's main account (writable); the
    /// initializer's payout account (writable); the record storage
    /// (writable); the token service; the custody identity.
    Exchange {
        /// The amount the taker expects to receive from custody.
        amount: u64,
    },
    /// Cancels a trade before anyone took it.
    ///
    /// Accounts, in order: the initializer (signer); the initializer's asset
    /// account (writable); the record storage (writable); the token service;
    /// the custody account (writable); the initializer's main account
    /// (writable); the custody identity.
    Cancel {},
}

/// The amount that a payload spells: the little-endian number in its first
/// eight bytes. A payload of fewer bytes spells none.
pub open spec fn decode_amount(payload: Seq<u8>) -> Result<u64, Failure> {
    if payload.len() >= 8 {
        Ok(le_u64(payload.subrange(0, 8)))
    } else {
        Err(Failure::Escrow(EscrowError::InvalidInstruction))
    }
}

/// The operation that request bytes spell: a tag byte, then the payload.
pub open spec fn decode(input: Seq<u8>) -> Result<EscrowInstruction, Failure> {
    if input.len() == 0 {
        Err(Failure::Escrow(EscrowError::InvalidInstruction))
    } else if input[0] == 0 {
        match decode_amount(input.skip(1)) {
            Ok(amount) => Ok(EscrowInstruction::InitEscrow { amount }),
            Err(e) => Err(e),
        }
    } else if input[0] == 1 {
        match decode_amount(input.skip(1)) {
            Ok(amount) => Ok(EscrowInstruction::Exchange { amount }),
            Err(e) => Err(e),
        }
    } else if input[0] == 2 {
        Ok(EscrowInstruction::Cancel {  })
    } else {
        Err(Failure::Escrow(EscrowError::InvalidInstruction))
    }
}

impl EscrowInstruction {
    /// Decodes request bytes into an operation.
    pub fn unpack(input: &[u8]) -> (result: Result<EscrowInstruction, Failure>)
        ensures
            result == decode(input@),
    {
        if input.len() == 0 {
            return Err(Failure::Escrow(EscrowError::InvalidInstruction));
        }
        let tag: u8 = input[0];
        if tag == 0 {
            match Self::unpack_amount_at(input, 1) {
                Ok(amount) => Ok(EscrowInstruction::InitEscrow { amount }),
                Err(e) => Err(e),
            }
        } else if tag == 1 {
            match Self::unpack_amount_at(input, 1) {
                Ok(amount) => Ok(EscrowInstruction::Exchange { amount }),
                Err(e) => Err(e),
            }
        } else if tag == 2 {
            Ok(EscrowInstruction::Cancel {  })
        } else {
            Err(Failure::Escrow(EscrowError::InvalidInstruction))
        }
    }

    /// Decodes the amount that a payload starts with.
    pub fn unpack_amount(input: &[u8]) -> (result: Result<u64, Failure>)
        ensures
            result == decode_amount(input@),
    {
        assert(input@.skip(0) =~= input@);
        Self::unpack_amount_at(input, 0)
    }

    /// Decodes the amount that the payload behind the first `from` bytes
    /// starts with.
    fn unpack_amount_at(input: &[u8], from: usize) -> (result: Result<u64, Failure>)
        requires
            from <= input@.len(),
        ensures
            result == decode_amount(input@.skip(from as int)),
    {
        if input.len() - from >= 8 {
            assert(input@.skip(from as int).subrange(0, 8) =~= input@.subrange(
                from as int,
                from + 8,
            ));
            Ok(read_le_u64(input, from))
        } else {
            Err(Failure::Escrow(EscrowError::InvalidInstruction))
        }
    }
}

} // verus!
