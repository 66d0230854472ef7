use vstd::prelude::*;
use solana_program::program_pack::Pack;
use solana_program::pubkey::Pubkey;
use spl_token::instruction as service;
use crate::address::Address;
use crate::bytes::le_bytes;

verus! {

/// One account of a call to another program: its address and what the call
/// needs of it.
#[derive(Clone, Copy, Debug, PartialEq, Eq)]
pub struct AccountMeta {
    /// The account's address.
    pub pubkey: Address,
    /// Whether the call needs the account's signature.
    pub is_signer: bool,
    /// Whether the call may change the account.
    pub is_writable: bool,
}

/// An account of a call as contracts speak of it.
pub struct AccountMetaView {
    pub pubkey: Seq<u8>,
    pub is_signer: bool,
    pub is_writable: bool,
}

impl View for AccountMeta {
    type V = AccountMetaView;

    open spec fn view(&self) -> AccountMetaView {
        AccountMetaView {
            pubkey: self.pubkey@,
            is_signer: self.is_signer,
            is_writable: self.is_writable,
        }
    }
}

/// A call to another program: the program, the accounts it works on and
/// the request bytes.
#[derive(Clone, Debug, PartialEq, Eq)]
pub struct Instruction {
    /// The program that is called.
    pub program_id: Address,
    /// The accounts of the call, in the order the program reads them.
    pub accounts: Vec<AccountMeta>,
    /// The request bytes.
    pub data: Vec<u8>,
}

/// A call as contracts speak of it.
pub struct InstructionView {
    pub program_id: Seq<u8>,
    pub accounts: Seq<AccountMetaView>,
    pub data: Seq<u8>,
}

impl View for Instruction {
    type V = InstructionView;

    open spec fn view(&self) -> InstructionView {
        InstructionView {
            program_id: self.program_id@,
            accounts: Seq::new(self.accounts@.len(), |i: int| self.accounts@[i]@),
            data: self.data@,
        }
    }
}

/// The rights over a token account or a mint that the token service can
/// hand to another authority.
#[derive(Clone, Copy, Debug, PartialEq, Eq, Structural)]
pub enum AuthorityType {
    /// The right to mint new tokens.
    MintTokens,
    /// The right to freeze accounts of the mint.
    FreezeAccount,
    /// The ownership of a token account.
    AccountOwner,
    /// The right to close a token account.
    CloseAccount,
}

impl AuthorityType {
    /// The byte by which a request names the right.
    pub open spec fn tag(self) -> u8 {
        match self {
            AuthorityType::MintTokens => 0,
            AuthorityType::FreezeAccount => 1,
            AuthorityType::AccountOwner => 2,
            AuthorityType::CloseAccount => 3,
        }
    }
}

/// The address of the token service: the 32 bytes that the host writes as
/// `TokenkegQfeZyiNwAJbNbGKPFXCWuBvf9Ss623VQ5DA`.
pub open spec fn token_program_id() -> Seq<u8> {
    seq![
        6u8, 221u8, 246u8, 225u8, 215u8, 101u8, 161u8, 147u8, 217u8, 203u8, 225u8, 70u8, 206u8,
        235u8, 121u8, 172u8, 28u8, 180u8, 133u8, 237u8, 95u8, 91u8, 55u8, 145u8, 58u8, 140u8,
        245u8, 133u8, 126u8, 255u8, 0u8, 169u8,
    ]
}

/// Whether an address is the token service's.
pub open spec fn is_token_program_id(id: Seq<u8>) -> bool {
    id == token_program_id()
}

/// The balance of the token holding that account data describes, or the
/// host's code for why the data describes no usable holding.
pub uninterp spec fn token_account_amount(data: Seq<u8>) -> Result<u64, u64>;

/// An account that a call may change and that need not sign.
pub open spec fn writable(pubkey: Seq<u8>) -> AccountMetaView {
    AccountMetaView { pubkey, is_signer: false, is_writable: true }
}

/// An account that a call only reads.
pub open spec fn readonly(pubkey: Seq<u8>, is_signer: bool) -> AccountMetaView {
    AccountMetaView { pubkey, is_signer, is_writable: false }
}

/// The call that moves `amount` tokens from `source` to `destination` on
/// the word of `authority`, signed by `signer`.
pub open spec fn transfer_call(
    token_program: Seq<u8>,
    source: Seq<u8>,
    destination: Seq<u8>,
    authority: Seq<u8>,
    signer: Seq<u8>,
    amount: u64,
) -> InstructionView {
    InstructionView {
        program_id: token_program,
        accounts: seq![
            writable(source),
            writable(destination),
            readonly(authority, false),
            readonly(signer, true),
        ],
        data: seq![3u8] + le_bytes(amount),
    }
}

/// The call that hands a right over `owned` from `owner` to
/// `new_authority`, signed by `signer`.
pub open spec fn set_authority_call(
    token_program: Seq<u8>,
    owned: Seq<u8>,
    new_authority: Seq<u8>,
    authority_type: AuthorityType,
    owner: Seq<u8>,
    signer: Seq<u8>,
) -> InstructionView {
    InstructionView {
        program_id: token_program,
        accounts: seq![writable(owned), readonly(owner, false), readonly(signer, true)],
        data: seq![6u8, authority_type.tag(), 1u8] + new_authority,
    }
}

/// The call that closes `account` and sends the balance that backed it to
/// `destination`, on the word of `owner`, signed by `signer`.
pub open spec fn close_account_call(
    token_program: Seq<u8>,
    account: Seq<u8>,
    destination: Seq<u8>,
    owner: Seq<u8>,
    signer: Seq<u8>,
) -> InstructionView {
    InstructionView {
        program_id: token_program,
        accounts: seq![
            writable(account),
            writable(destination),
            readonly(owner, false),
            readonly(signer, true),
        ],
        data: seq![9u8],
    }
}

/// The address of the token service.
pub fn token_program() -> (address: Address)
    ensures
        address@ == token_program_id(),
{
    let address = Address::new(
        [
            6, 221, 246, 225, 215, 101, 161, 147, 217, 203, 225, 70, 206, 235, 121, 172, 28, 180,
            133, 237, 95, 91, 55, 145, 58, 140, 245, 133, 126, 255, 0, 169,
        ],
    );
    assert(address@ =~= token_program_id());
    address
}

/// Calls `spl_token::check_id`. Trusted: the result says whether the
/// address is the one that the token service declares as its own.
#[verifier::external_body]
pub(crate) fn is_token_program(id: &Address) -> (known: bool)
    ensures
        known == is_token_program_id(id@),
{
    spl_token::check_id(&Pubkey::new_from_array(id.bytes))
}

/// Calls `unpack` of `spl_token::state::Account` on account data and picks
/// the balance of the holding. Trusted: the result is what
/// `token_account_amount` names, a failure by the host's numeric code.
#[verifier::external_body]
pub(crate) fn unpack_token_amount(data: &[u8]) -> (result: Result<u64, u64>)
    ensures
        result == token_account_amount(data@),
{
    match spl_token::state::Account::unpack(data) {
        Ok(holding) => Ok(holding.amount),
        Err(e) => Err(u64::from(e)),
    }
}

/// Calls `spl_token::instruction::transfer` with one signer. Trusted: the
/// call is built exactly when `token_program` is the token service's
/// address, and is then `transfer_call` of the arguments.
#[verifier::external_body]
pub(crate) fn transfer(
    token_program: &Address,
    source: &Address,
    destination: &Address,
    authority: &Address,
    signer: &Address,
    amount: u64,
) -> (call: Option<Instruction>)
    ensures
        call is Some <==> is_token_program_id(token_program@),
        call matches Some(ix) ==> ix@ == transfer_call(
            token_program@,
            source@,
            destination@,
            authority@,
            signer@,
            amount,
        ),
{
    let key = |a: &Address| Pubkey::new_from_array(a.bytes);
    let made = service::transfer(&key(token_program), &key(source), &key(destination), &key(authority), &[&key(signer)], amount).ok()?;
    Some(Instruction {
        program_id: Address { bytes: made.program_id.to_bytes() },
        accounts: made.accounts.iter().map(|m| AccountMeta { pubkey: Address { bytes: m.pubkey.to_bytes() }, is_signer: m.is_signer, is_writable: m.is_writable }).collect(),
        data: made.data,
    })
}

/// Calls `spl_token::instruction::set_authority` with a new authority and
/// one signer. Trusted: the call is built exactly when `token_program` is
/// the token service's address, and is then `set_authority_call` of the
/// arguments.
#[verifier::external_body]
pub(crate) fn set_authority(
    token_program: &Address,
    owned: &Address,
    new_authority: &Address,
    authority_type: AuthorityType,
    owner: &Address,
    signer: &Address,
) -> (call: Option<Instruction>)
    ensures
        call is Some <==> is_token_program_id(token_program@),
        call matches Some(ix) ==> ix@ == set_authority_call(
            token_program@,
            owned@,
            new_authority@,
            authority_type,
            owner@,
            signer@,
        ),
{
    let key = |a: &Address| Pubkey::new_from_array(a.bytes);
    let right = match authority_type {
        AuthorityType::MintTokens => service::AuthorityType::MintTokens,
        AuthorityType::FreezeAccount => service::AuthorityType::FreezeAccount,
        AuthorityType::AccountOwner => service::AuthorityType::AccountOwner,
        AuthorityType::CloseAccount => service::AuthorityType::CloseAccount,
    };
    let made = service::set_authority(&key(token_program), &key(owned), Some(&key(new_authority)), right, &key(owner), &[&key(signer)]).ok()?;
    Some(Instruction {
        program_id: Address { bytes: made.program_id.to_bytes() },
        accounts: made.accounts.iter().map(|m| AccountMeta { pubkey: Address { bytes: m.pubkey.to_bytes() }, is_signer: m.is_signer, is_writable: m.is_writable }).collect(),
        data: made.data,
    })
}

/// Calls `spl_token::instruction::close_account` with one signer. Trusted:
/// the call is built exactly when `token_program` is the token service's
/// address, and is then `close_account_call` of the arguments.
#[verifier::external_body]
pub(crate) fn close_account(
    token_program: &Address,
    account: &Address,
    destination: &Address,
    owner: &Address,
    signer: &Address,
) -> (call: Option<Instruction>)
    ensures
        call is Some <==> is_token_program_id(token_program@),
        call matches Some(ix) ==> ix@ == close_account_call(
            token_program@,
            account@,
            destination@,
            owner@,
            signer@,
        ),
{
    let key = |a: &Address| Pubkey::new_from_array(a.bytes);
    let made = service::close_account(&key(token_program), &key(account), &key(destination), &key(owner), &[&key(signer)]).ok()?;
    Some(Instruction {
        program_id: Address { bytes: made.program_id.to_bytes() },
        accounts: made.accounts.iter().map(|m| AccountMeta { pubkey: Address { bytes: m.pubkey.to_bytes() }, is_signer: m.is_signer, is_writable: m.is_writable }).collect(),
        data: made.data,
    })
}

} // verus!
