use vstd::prelude::*;
use solana_program::account_info::AccountInfo;
use solana_program::pubkey::Pubkey;
use solana_program::sysvar::Sysvar;
use crate::address::Address;

verus! {

/// The bytes that the host counts on top of an account's data when it
/// computes rent.
pub const ACCOUNT_STORAGE_OVERHEAD: u64 = 128;

/// The rental rate per byte and year that the host reads from an account
/// given as the rent account, or the host's code for why it reads none.
pub uninterp spec fn rent_rate(key: Seq<u8>, data: Seq<u8>) -> Result<u64, u64>;

/// Whether the rent rule that the host reads from an account given as the
/// rent account finds a balance exempt for data of a length, or the host's
/// code for why it reads no rule.
pub uninterp spec fn rent_exemption(
    key: Seq<u8>,
    data: Seq<u8>,
    balance: u64,
    data_len: usize,
) -> Result<bool, u64>;

/// The custody identity that the host derives from a seed and a program's
/// address, with the bump value that completes the seed, if there is one.
pub uninterp spec fn program_address(seed: Seq<u8>, program_id: Seq<u8>) -> Option<(Seq<u8>, u8)>;

/// Whether the host can apply a rental rate to data of a length: it adds
/// the storage overhead to the length and multiplies the sum by the rate,
/// both in 64 bits.
pub open spec fn rent_computable(rate: u64, data_len: usize) -> bool {
    &&& ACCOUNT_STORAGE_OVERHEAD + data_len <= u64::MAX
    &&& (ACCOUNT_STORAGE_OVERHEAD + data_len) * rate <= u64::MAX
}

/// Calls `Rent::from_account_info` of `solana_program` on an account with
/// the given address and data and picks the rate of the rule it read.
/// Trusted: the result is what `rent_rate` names, a failure by the host's
/// numeric code for it.
#[verifier::external_body]
pub(crate) fn load_rent_rate(key: &Address, data: &[u8]) -> (result: Result<u64, u64>)
    ensures
        result == rent_rate(key@, data@),
{
    let key = Pubkey::new_from_array(key.bytes);
    let (mut lamports, mut data) = (0u64, data.to_vec());
    let info = AccountInfo::new(&key, false, false, &mut lamports, &mut data, &key, false, 0);
    match solana_program::rent::Rent::from_account_info(&info) {
        Ok(rent) => Ok(rent.lamports_per_byte_year),
        Err(e) => Err(u64::from(e)),
    }
}

/// Calls `Rent::from_account_info` of `solana_program` as `load_rent_rate`
/// does, and `Rent::is_exempt` on the rule it read. Trusted: the result is
/// what `rent_exemption` names. The rate of the rule must be applicable to
/// the length, or the host's multiplication overflows.
#[verifier::external_body]
pub(crate) fn check_rent_exemption(key: &Address, data: &[u8], balance: u64, data_len: usize) -> (result:
    Result<bool, u64>)
    requires
        rent_rate(key@, data@) matches Ok(rate) ==> rent_computable(rate, data_len),
    ensures
        result == rent_exemption(key@, data@, balance, data_len),
{
    let key = Pubkey::new_from_array(key.bytes);
    let (mut lamports, mut data) = (0u64, data.to_vec());
    let info = AccountInfo::new(&key, false, false, &mut lamports, &mut data, &key, false, 0);
    match solana_program::rent::Rent::from_account_info(&info) {
        Ok(rent) => Ok(rent.is_exempt(balance, data_len)),
        Err(e) => Err(u64::from(e)),
    }
}

/// Calls `Pubkey::try_find_program_address` of `solana_program` with the one
/// seed given. Trusted: the result is what `program_address` names.
#[verifier::external_body]
pub(crate) fn find_program_address(seed: &[u8], program_id: &Address) -> (found: Option<
    (Address, u8),
>)
    ensures
        match found {
            Some(pair) => program_address(seed@, program_id@) == Some((pair.0@, pair.1)),
            None => program_address(seed@, program_id@) is None,
        },
{
    let program = Pubkey::new_from_array(program_id.bytes);
    match Pubkey::try_find_program_address(&[seed], &program) {
        Some((address, bump)) => Some((Address { bytes: address.to_bytes() }, bump)),
        None => None,
    }
}

} // verus!
