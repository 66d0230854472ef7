use vstd::prelude::*;
use crate::address::Address;
use crate::bytes::{le_bytes, le_u64, lemma_le_round_trip, read_le_u64, write_le_u64};
use crate::error::Failure;

verus! {

/// The number of bytes that a persisted trade record takes.
pub const ESCROW_LEN: usize = 105;

/// The persisted record of one open trade.
#[derive(Clone, Copy, Debug, PartialEq, Eq)]
pub struct Escrow {
    /// Whether the record describes an open trade; storage that was never
    /// written, or was cleared, describes none.
    pub is_initialized: bool,
    /// The party that deposited; only it may cancel.
    pub initializer_pubkey: Address,
    /// The account that holds the deposit in custody.
    pub temp_token_account_pubkey: Address,
    /// The account that receives the counter-asset when the trade settles.
    pub initializer_token_to_receive_account_pubkey: Address,
    /// The amount of the counter-asset that the initializer demands.
    pub expected_amount: u64,
}

/// A trade record as contracts speak of it: each address by its bytes.
pub struct EscrowView {
    pub is_initialized: bool,
    pub initializer_pubkey: Seq<u8>,
    pub temp_token_account_pubkey: Seq<u8>,
    pub initializer_token_to_receive_account_pubkey: Seq<u8>,
    pub expected_amount: u64,
}

impl View for Escrow {
    type V = EscrowView;

    open spec fn view(&self) -> EscrowView {
        EscrowView {
            is_initialized: self.is_initialized,
            initializer_pubkey: self.initializer_pubkey@,
            temp_token_account_pubkey: self.temp_token_account_pubkey@,
            initializer_token_to_receive_account_pubkey:
                self.initializer_token_to_receive_account_pubkey@,
            expected_amount: self.expected_amount,
        }
    }
}

impl EscrowView {
    /// Every address of the record has its 32 bytes.
    pub open spec fn well_formed(self) -> bool {
        &&& self.initializer_pubkey.len() == 32
        &&& self.temp_token_account_pubkey.len() == 32
        &&& self.initializer_token_to_receive_account_pubkey.len() == 32
    }

    /// The record that cleared storage describes: no open trade, every
    /// field zero.
    pub open spec fn blank() -> EscrowView {
        EscrowView {
            is_initialized: false,
            initializer_pubkey: Seq::new(32, |i: int| 0u8),
            temp_token_account_pubkey: Seq::new(32, |i: int| 0u8),
            initializer_token_to_receive_account_pubkey: Seq::new(32, |i: int| 0u8),
            expected_amount: 0,
        }
    }
}

/// The 105 bytes that persist a record: the flag as one byte, the three
/// addresses in the order of the fields, the amount in little-endian order.
pub open spec fn encode(record: EscrowView) -> Seq<u8> {
    seq![if record.is_initialized { 1u8 } else { 0u8 }] + record.initializer_pubkey
        + record.temp_token_account_pubkey
        + record.initializer_token_to_receive_account_pubkey + le_bytes(record.expected_amount)
}

/// The record that storage holds, open or not. Storage without any bytes
/// is cleared storage and holds the blank record; other storage must have
/// the record's size and a flag byte of 0 or 1.
pub open spec fn decode_unchecked(data: Seq<u8>) -> Result<EscrowView, Failure> {
    if data.len() == 0 {
        Ok(EscrowView::blank())
    } else if data.len() != ESCROW_LEN || data[0] > 1 {
        Err(Failure::InvalidAccountData)
    } else {
        Ok(
            EscrowView {
                is_initialized: data[0] == 1,
                initializer_pubkey: data.subrange(1, 33),
                temp_token_account_pubkey: data.subrange(33, 65),
                initializer_token_to_receive_account_pubkey: data.subrange(65, 97),
                expected_amount: le_u64(data.subrange(97, 105)),
            },
        )
    }
}

/// The open trade that storage holds; storage that holds none is refused.
pub open spec fn decode(data: Seq<u8>) -> Result<EscrowView, Failure> {
    match decode_unchecked(data) {
        Ok(record) => if record.is_initialized {
            Ok(record)
        } else {
            Err(Failure::UninitializedAccount)
        },
        Err(e) => Err(e),
    }
}

/// A record survives being persisted and read back, field for field.
pub proof fn lemma_encode_decode(record: EscrowView)
    requires
        record.well_formed(),
    ensures
        encode(record).len() == ESCROW_LEN,
        decode_unchecked(encode(record)) == Ok::<EscrowView, Failure>(record),
        record.is_initialized ==> decode(encode(record)) == Ok::<EscrowView, Failure>(record),
{
    lemma_le_round_trip(record.expected_amount);
    let data = encode(record);
    assert(data.subrange(1, 33) =~= record.initializer_pubkey);
    assert(data.subrange(33, 65) =~= record.temp_token_account_pubkey);
    assert(data.subrange(65, 97) =~= record.initializer_token_to_receive_account_pubkey);
    assert(data.subrange(97, 105) =~= le_bytes(record.expected_amount));
}

impl Escrow {
    /// Whether the record describes an open trade.
    pub fn is_initialized(&self) -> (open: bool)
        ensures
            open == self@.is_initialized,
    {
        self.is_initialized
    }

    /// The record that cleared storage describes.
    pub fn blank() -> (record: Escrow)
        ensures
            record@ == EscrowView::blank(),
    {
        let zero = Address::new([0u8; 32]);
        assert(zero@ =~= Seq::new(32, |i: int| 0u8));
        Escrow {
            is_initialized: false,
            initializer_pubkey: zero,
            temp_token_account_pubkey: zero,
            initializer_token_to_receive_account_pubkey: zero,
            expected_amount: 0,
        }
    }

    /// Reads the record that storage holds, open or not.
    pub fn unpack_unchecked(input: &[u8]) -> (result: Result<Escrow, Failure>)
        ensures
            match decode_unchecked(input@) {
                Ok(record) => result is Ok && result.unwrap()@ == record,
                Err(e) => result == Err::<Escrow, Failure>(e),
            },
    {
        if input.len() == 0 {
            return Ok(Escrow::blank());
        }
        if input.len() != ESCROW_LEN || input[0] > 1 {
            return Err(Failure::InvalidAccountData);
        }
        Ok(
            Escrow {
                is_initialized: input[0] == 1,
                initializer_pubkey: Address::read(input, 1),
                temp_token_account_pubkey: Address::read(input, 33),
                initializer_token_to_receive_account_pubkey: Address::read(input, 65),
                expected_amount: read_le_u64(input, 97),
            },
        )
    }

    /// Reads the open trade that storage holds.
    pub fn unpack(input: &[u8]) -> (result: Result<Escrow, Failure>)
        ensures
            match decode(input@) {
                Ok(record) => result is Ok && result.unwrap()@ == record,
                Err(e) => result == Err::<Escrow, Failure>(e),
            },
    {
        match Escrow::unpack_unchecked(input) {
            Ok(record) => if record.is_initialized {
                Ok(record)
            } else {
                Err(Failure::UninitializedAccount)
            },
            Err(e) => Err(e),
        }
    }

    /// The bytes that persist the record.
    pub fn to_bytes(&self) -> (data: Vec<u8>)
        ensures
            data@ == encode(self@),
            data@.len() == ESCROW_LEN,
    {
        let mut data: Vec<u8> = Vec::new();
        data.push(if self.is_initialized { 1u8 } else { 0u8 });
        self.initializer_pubkey.write(&mut data);
        self.temp_token_account_pubkey.write(&mut data);
        self.initializer_token_to_receive_account_pubkey.write(&mut data);
        write_le_u64(self.expected_amount, &mut data);
        assert(data@ =~= encode(self@));
        data
    }

    /// Persists the record into storage of the record's size; storage of
    /// another size is refused and left as it was.
    pub fn pack(src: Escrow, dst: &mut Vec<u8>) -> (result: Result<(), Failure>)
        ensures
            old(dst)@.len() == ESCROW_LEN ==> result is Ok && final(dst)@ == encode(src@),
            old(dst)@.len() != ESCROW_LEN ==> result == Err::<(), Failure>(
                Failure::InvalidAccountData,
            ) && final(dst)@ == old(dst)@,
    {
        if dst.len() != ESCROW_LEN {
            return Err(Failure::InvalidAccountData);
        }
        *dst = src.to_bytes();
        Ok(())
    }
}

} // verus!
