use vstd::prelude::*;
use crate::account::{states, Account, AccountState};
use crate::address::Address;
use crate::custody::{authority_view, custody_authority, CustodyAuthority};
use crate::host::{
    check_rent_exemption, load_rent_rate, rent_computable, rent_exemption, rent_rate,
    ACCOUNT_STORAGE_OVERHEAD,
};
use crate::token::{token_account_amount, unpack_token_amount};

verus! {

/// What the host's rent rule finds for a balance and a data length, read
/// from an account given as the rent account. A rate that the host cannot
/// apply to the length finds nothing exempt.
pub open spec fn rent_finding(key: Seq<u8>, data: Seq<u8>, balance: u64, data_len: usize) -> Result<
    bool,
    u64,
> {
    match rent_rate(key, data) {
        Ok(rate) => if rent_computable(rate, data_len) {
            rent_exemption(key, data, balance, data_len)
        } else {
            Ok(false)
        },
        Err(code) => Err(code),
    }
}

/// Asks the host's rent rule, read from `rent_account`, whether `balance`
/// makes data of `data_len` bytes exempt.
pub fn find_rent(rent_account: &Account, balance: u64, data_len: usize) -> (finding: Result<
    bool,
    u64,
>)
    ensures
        finding == rent_finding(rent_account@.key, rent_account@.data, balance, data_len),
{
    match load_rent_rate(&rent_account.key, rent_account.data.as_slice()) {
        Ok(rate) => {
            let applicable = match ACCOUNT_STORAGE_OVERHEAD.checked_add(data_len as u64) {
                Some(bytes) => bytes.checked_mul(rate).is_some(),
                None => false,
            };
            if applicable {
                check_rent_exemption(
                    &rent_account.key,
                    rent_account.data.as_slice(),
                    balance,
                    data_len,
                )
            } else {
                Ok(false)
            }
        },
        Err(code) => Err(code),
    }
}

/// What the host says of the accounts of a request to open a trade, where
/// only the host can say it. A fact about an account that the request does
/// not name is never read.
#[derive(Debug, PartialEq, Eq)]
pub struct OpenFacts {
    /// The balance of the payout account as a token holding, or why it is
    /// not a usable holding.
    pub payout_holding: Result<u64, u64>,
    /// Whether the record storage is exempt from rent, or why the rent
    /// account could not be read.
    pub rent_exempt: Result<bool, u64>,
    /// The program's custody identity, if one can be derived.
    pub authority: Option<CustodyAuthority>,
}

/// `OpenFacts` as contracts speak of them.
pub struct OpenFactsView {
    pub payout_holding: Result<u64, u64>,
    pub rent_exempt: Result<bool, u64>,
    pub authority: Option<(Seq<u8>, u8)>,
}

impl View for OpenFacts {
    type V = OpenFactsView;

    open spec fn view(&self) -> OpenFactsView {
        OpenFactsView {
            payout_holding: self.payout_holding,
            rent_exempt: self.rent_exempt,
            authority: authority_view(self.authority),
        }
    }
}

/// The facts about the accounts `s` of a request to open a trade under the
/// program `program_id`: the payout account is the third, the record
/// storage the fourth, the rent account the fifth.
pub open spec fn open_facts(s: Seq<AccountState>, program_id: Seq<u8>) -> OpenFactsView {
    OpenFactsView {
        payout_holding: if s.len() > 2 {
            token_account_amount(s[2].data)
        } else {
            Err(0)
        },
        rent_exempt: if s.len() > 4 {
            rent_finding(s[4].key, s[4].data, s[3].lamports, s[3].data.len() as usize)
        } else {
            Err(0)
        },
        authority: custody_authority(program_id),
    }
}

impl OpenFacts {
    /// Gathers the facts about the accounts of a request to open a trade.
    pub fn gather(accounts: &Vec<Account>, program_id: &Address) -> (facts: OpenFacts)
        ensures
            facts@ == open_facts(states(accounts@), program_id@),
    {
        let n: usize = accounts.len();
        let payout_holding = if n > 2 {
            unpack_token_amount(accounts[2].data.as_slice())
        } else {
            Err(0)
        };
        let rent_exempt = if n > 4 {
            find_rent(&accounts[4], accounts[3].lamports, accounts[3].data.len())
        } else {
            Err(0)
        };
        OpenFacts { payout_holding, rent_exempt, authority: CustodyAuthority::derive(program_id) }
    }
}

/// What the host says of the custody of a trade that is to be settled or
/// cancelled, where only the host can say it. A fact about an account that
/// the request does not name is never read.
#[derive(Debug, PartialEq, Eq)]
pub struct CustodyFacts {
    /// The balance of the custody account as a token holding, or why it is
    /// not a usable holding.
    pub custody_holding: Result<u64, u64>,
    /// The program's custody identity, if one can be derived.
    pub authority: Option<CustodyAuthority>,
}

/// `CustodyFacts` as contracts speak of them.
pub struct CustodyFactsView {
    pub custody_holding: Result<u64, u64>,
    pub authority: Option<(Seq<u8>, u8)>,
}

impl View for CustodyFacts {
    type V = CustodyFactsView;

    open spec fn view(&self) -> CustodyFactsView {
        CustodyFactsView {
            custody_holding: self.custody_holding,
            authority: authority_view(self.authority),
        }
    }
}

/// The facts about the custody of a trade under the program `program_id`,
/// where the custody account stands at `custody` among the accounts `s`.
pub open spec fn custody_facts(
    s: Seq<AccountState>,
    custody: int,
    program_id: Seq<u8>,
) -> CustodyFactsView {
    CustodyFactsView {
        custody_holding: if 0 <= custody < s.len() {
            token_account_amount(s[custody].data)
        } else {
            Err(0)
        },
        authority: custody_authority(program_id),
    }
}

impl CustodyFacts {
    /// Gathers the facts about the custody of a trade whose custody account
    /// stands at `custody` among the accounts.
    pub fn gather(accounts: &Vec<Account>, custody: usize, program_id: &Address) -> (facts:
        CustodyFacts)
        ensures
            facts@ == custody_facts(states(accounts@), custody as int, program_id@),
    {
        let custody_holding = if custody < accounts.len() {
            unpack_token_amount(accounts[custody].data.as_slice())
        } else {
            Err(0)
        };
        CustodyFacts { custody_holding, authority: CustodyAuthority::derive(program_id) }
    }
}

} // verus!
