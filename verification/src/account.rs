use vstd::prelude::*;
use crate::address::Address;

verus! {

/// One account as the host shows it to the program: who it is, who owns it,
/// whether it signed the request, its balance and its data.
#[derive(Clone, Debug, PartialEq, Eq)]
pub struct Account {
    /// The account's address.
    pub key: Address,
    /// The program that owns the account.
    pub owner: Address,
    /// Whether the request carries this account's signature.
    pub is_signer: bool,
    /// The balance that backs the account's storage.
    pub lamports: u64,
    /// The account's data.
    pub data: Vec<u8>,
}

/// An account as contracts speak of it.
pub struct AccountState {
    pub key: Seq<u8>,
    pub owner: Seq<u8>,
    pub is_signer: bool,
    pub lamports: u64,
    pub data: Seq<u8>,
}

impl View for Account {
    type V = AccountState;

    open spec fn view(&self) -> AccountState {
        AccountState {
            key: self.key@,
            owner: self.owner@,
            is_signer: self.is_signer,
            lamports: self.lamports,
            data: self.data@,
        }
    }
}

/// The accounts of a request, in the order of the request.
pub open spec fn states(accounts: Seq<Account>) -> Seq<AccountState> {
    Seq::new(accounts.len(), |i: int| accounts[i]@)
}

/// Every address among the accounts has its 32 bytes.
pub open spec fn valid(s: Seq<AccountState>) -> bool {
    forall|i: int| 0 <= i < s.len() ==> (#[trigger] s[i]).key.len() == 32 && s[i].owner.len() == 32
}

/// The accounts after the account at `key` got the balance `lamports`. A
/// request may name one account several times: every entry with that
/// address is the same account, so all of them change.
pub open spec fn with_lamports(s: Seq<AccountState>, key: Seq<u8>, lamports: u64) -> Seq<
    AccountState,
> {
    Seq::new(
        s.len(),
        |i: int|
            if s[i].key == key {
                AccountState { lamports, ..s[i] }
            } else {
                s[i]
            },
    )
}

/// The accounts after the account at `key` got the data `data`, in every
/// entry that names it.
pub open spec fn with_data(s: Seq<AccountState>, key: Seq<u8>, data: Seq<u8>) -> Seq<
    AccountState,
> {
    Seq::new(
        s.len(),
        |i: int|
            if s[i].key == key {
                AccountState { data, ..s[i] }
            } else {
                s[i]
            },
    )
}

/// Entries with one address show one account: the same balance and data.
pub open spec fn coherent(s: Seq<AccountState>) -> bool {
    forall|i: int, j: int|
        0 <= i < s.len() && 0 <= j < s.len() && s[i].key == s[j].key ==> s[i].lamports
            == s[j].lamports && s[i].data == s[j].data
}

/// Writing a balance keeps the entries coherent.
pub proof fn lemma_with_lamports_coherent(s: Seq<AccountState>, key: Seq<u8>, lamports: u64)
    requires
        coherent(s),
    ensures
        coherent(with_lamports(s, key, lamports)),
{
}

/// Writing data keeps the entries coherent.
pub proof fn lemma_with_data_coherent(s: Seq<AccountState>, key: Seq<u8>, data: Seq<u8>)
    requires
        coherent(s),
    ensures
        coherent(with_data(s, key, data)),
{
}

/// Gives the account at `key` the balance `lamports`.
pub fn set_lamports(accounts: &mut Vec<Account>, key: &Address, lamports: u64)
    ensures
        states(final(accounts)@) == with_lamports(states(old(accounts)@), key@, lamports),
{
    let ghost before = states(accounts@);
    let n: usize = accounts.len();
    let mut i: usize = 0;
    while i < n
        invariant
            i <= n,
            n == accounts@.len(),
            n == before.len(),
            forall|j: int| 0 <= j < i ==> accounts@[j]@ == with_lamports(before, key@, lamports)[j],
            forall|j: int| i <= j < n ==> accounts@[j]@ == before[j],
        decreases n - i,
    {
        if accounts[i].key == *key {
            accounts[i].lamports = lamports;
        }
        i += 1;
    }
    assert(states(accounts@) =~= with_lamports(before, key@, lamports));
}

/// Gives the account at `key` a copy of `data` as its data.
pub fn set_data(accounts: &mut Vec<Account>, key: &Address, data: &Vec<u8>)
    ensures
        states(final(accounts)@) == with_data(states(old(accounts)@), key@, data@),
{
    let ghost before = states(accounts@);
    let n: usize = accounts.len();
    let mut i: usize = 0;
    while i < n
        invariant
            i <= n,
            n == accounts@.len(),
            n == before.len(),
            forall|j: int| 0 <= j < i ==> accounts@[j]@ == with_data(before, key@, data@)[j],
            forall|j: int| i <= j < n ==> accounts@[j]@ == before[j],
        decreases n - i,
    {
        if accounts[i].key == *key {
            accounts[i].data = data.clone();
        }
        i += 1;
    }
    assert(states(accounts@) =~= with_data(before, key@, data@));
}

} // verus!
