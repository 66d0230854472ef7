use vstd::prelude::*;
use crate::account::{set_data, set_lamports, states, with_data, with_lamports, Account, AccountState};
use crate::address::Address;
use crate::custody::{authority_view, CustodyAuthority};
use crate::error::{EscrowError, Failure};
use crate::facts::{
    custody_facts, open_facts, CustodyFacts, CustodyFactsView, OpenFacts, OpenFactsView,
};
use crate::instruction::{decode as decode_instruction, EscrowInstruction};
use crate::state::{decode, decode_unchecked, encode, Escrow, EscrowView, ESCROW_LEN};
use crate::step::{Invocation, Stage, Step};
use crate::token::{
    close_account, close_account_call, is_token_program, is_token_program_id, set_authority,
    set_authority_call, transfer, transfer_call, AuthorityType,
};

verus! {

/// The record that opening a trade writes: the first account is the
/// initializer, the second the custody account, the third the payout
/// account.
pub open spec fn opened_record(s: Seq<AccountState>, amount: u64) -> EscrowView {
    EscrowView {
        is_initialized: true,
        initializer_pubkey: s[0].key,
        temp_token_account_pubkey: s[1].key,
        initializer_token_to_receive_account_pubkey: s[2].key,
        expected_amount: amount,
    }
}

/// Why a request to open a trade is refused, checked in this order; `None`
/// where it is not.
pub open spec fn open_failure(s: Seq<AccountState>, f: OpenFactsView) -> Option<Failure> {
    if s.len() < 1 {
        Some(Failure::NotEnoughAccountKeys)
    } else if !s[0].is_signer {
        Some(Failure::MissingRequiredSignature)
    } else if s.len() < 3 {
        Some(Failure::NotEnoughAccountKeys)
    } else if !is_token_program_id(s[2].owner) {
        Some(Failure::IncorrectProgramId)
    } else if f.payout_holding is Err {
        Some(Failure::Host(f.payout_holding->Err_0))
    } else if s.len() < 5 {
        Some(Failure::NotEnoughAccountKeys)
    } else if f.rent_exempt is Err {
        Some(Failure::Host(f.rent_exempt->Err_0))
    } else if !f.rent_exempt->Ok_0 {
        Some(Failure::Escrow(EscrowError::NotRentExempt))
    } else if decode_unchecked(s[3].data) is Err {
        Some(decode_unchecked(s[3].data)->Err_0)
    } else if decode_unchecked(s[3].data)->Ok_0.is_initialized {
        Some(Failure::AccountAlreadyInitialized)
    } else if s[3].data.len() != ESCROW_LEN {
        Some(Failure::InvalidAccountData)
    } else if f.authority is None {
        Some(Failure::InvalidSeeds)
    } else if s.len() < 6 {
        Some(Failure::NotEnoughAccountKeys)
    } else if !is_token_program_id(s[5].key) {
        Some(Failure::IncorrectProgramId)
    } else {
        None
    }
}

/// The accounts after a trade was opened: the record storage, the fourth
/// account, holds the new record.
pub open spec fn open_effect(s: Seq<AccountState>, amount: u64) -> Seq<AccountState> {
    with_data(s, s[3].key, encode(opened_record(s, amount)))
}

/// What a request to open a trade comes to: a refusal that changes
/// nothing, or the written record and the call that makes the custody
/// identity the owner of the custody account, on the word and signature of
/// the initializer.
pub open spec fn open_result(
    s: Seq<AccountState>,
    amount: u64,
    f: OpenFactsView,
    result: Result<Step, Failure>,
    t: Seq<AccountState>,
) -> bool {
    match open_failure(s, f) {
        Some(e) => result == Err::<Step, Failure>(e) && t == s,
        None => {
            &&& result matches Ok(Step::Invoke { invocation, stage })
            &&& invocation.instruction@ == set_authority_call(
                s[5].key,
                s[1].key,
                f.authority.unwrap().0,
                AuthorityType::AccountOwner,
                s[0].key,
                s[0].key,
            )
            &&& invocation.accounts@ == seq![1usize, 0usize, 5usize]
            &&& invocation.signer is None
            &&& stage is AuthorityChange
            &&& t == open_effect(s, amount)
        },
    }
}

/// Why a request to settle a trade for `amount` is refused, checked in
/// this order; `None` where it is not.
pub open spec fn settle_failure(s: Seq<AccountState>, amount: u64, f: CustodyFactsView) -> Option<
    Failure,
> {
    if s.len() < 1 {
        Some(Failure::NotEnoughAccountKeys)
    } else if !s[0].is_signer {
        Some(Failure::MissingRequiredSignature)
    } else if s.len() < 4 {
        Some(Failure::NotEnoughAccountKeys)
    } else if f.custody_holding is Err {
        Some(Failure::Host(f.custody_holding->Err_0))
    } else if amount != f.custody_holding->Ok_0 {
        Some(Failure::Escrow(EscrowError::ExpectedAmountMismatch))
    } else if s.len() < 7 {
        Some(Failure::NotEnoughAccountKeys)
    } else if decode(s[6].data) is Err {
        Some(decode(s[6].data)->Err_0)
    } else if decode(s[6].data)->Ok_0.temp_token_account_pubkey != s[3].key {
        Some(Failure::InvalidAccountData)
    } else if decode(s[6].data)->Ok_0.initializer_pubkey != s[4].key {
        Some(Failure::InvalidAccountData)
    } else if decode(s[6].data)->Ok_0.initializer_token_to_receive_account_pubkey != s[5].key {
        Some(Failure::InvalidAccountData)
    } else if f.authority is None {
        Some(Failure::InvalidSeeds)
    } else if s.len() < 8 {
        Some(Failure::NotEnoughAccountKeys)
    } else if !is_token_program_id(s[7].key) {
        Some(Failure::IncorrectProgramId)
    } else {
        None
    }
}

/// What a request to settle a trade comes to: a refusal, or the call that
/// pays the initializer the amount on record, from the taker's source
/// account into the payout account, on the word and signature of the
/// taker. The custody balance and the custody identity are kept for the
/// stages that follow. Nothing changes either way.
pub open spec fn settle_result(
    s: Seq<AccountState>,
    amount: u64,
    f: CustodyFactsView,
    result: Result<Step, Failure>,
    t: Seq<AccountState>,
) -> bool {
    &&& t == s
    &&& match settle_failure(s, amount, f) {
        Some(e) => result == Err::<Step, Failure>(e),
        None => {
            &&& result matches Ok(Step::Invoke { invocation, stage })
            &&& invocation.instruction@ == transfer_call(
                s[7].key,
                s[1].key,
                s[5].key,
                s[0].key,
                s[0].key,
                decode(s[6].data).unwrap().expected_amount,
            )
            &&& invocation.accounts@ == seq![1usize, 5usize, 0usize, 7usize]
            &&& invocation.signer is None
            &&& stage matches Stage::Payment { balance, authority }
            &&& balance == amount
            &&& Some(authority@) == f.authority
        },
    }
}

/// Whether the balance of the account at `from` does not fit on top of the
/// balance of the account at `to`.
pub open spec fn reclaim_overflows(s: Seq<AccountState>, from: int, to: int) -> bool {
    s[to].lamports + s[from].lamports > u64::MAX
}

/// The accounts after the account at `from` was reclaimed into the account
/// at `to`: first `to` is credited with the balance of `from`, then `from`
/// is left with no balance and no data.
pub open spec fn reclaim_effect(s: Seq<AccountState>, from: int, to: int) -> Seq<AccountState> {
    let credited = with_lamports(s, s[to].key, (s[to].lamports + s[from].lamports) as u64);
    with_data(with_lamports(credited, s[from].key, 0), s[from].key, Seq::empty())
}

/// Why the account at `from` cannot be reclaimed into the account at `to`;
/// `None` where it can.
pub open spec fn reclaim_failure(s: Seq<AccountState>, from: int, to: int) -> Option<Failure> {
    if from >= s.len() || to >= s.len() {
        Some(Failure::NotEnoughAccountKeys)
    } else if reclaim_overflows(s, from, to) {
        Some(Failure::Escrow(EscrowError::AmountOverflow))
    } else {
        None
    }
}

/// Why the closing of a trade cannot be asked for, where the accounts
/// stand at the given positions; `None` where it can.
pub open spec fn closing_failure(
    s: Seq<AccountState>,
    custody: int,
    token_program: int,
    main: int,
    authority_account: int,
    record: int,
) -> Option<Failure> {
    if custody >= s.len() || token_program >= s.len() || main >= s.len() || authority_account
        >= s.len() || record >= s.len() {
        Some(Failure::NotEnoughAccountKeys)
    } else if !is_token_program_id(s[token_program].key) {
        Some(Failure::IncorrectProgramId)
    } else {
        None
    }
}

/// What asking for the closing of a trade comes to: a refusal, or the call
/// that closes the custody account in favour of the initializer's main
/// account, on the word and in the name of the custody identity, with the
/// record storage still to be reclaimed into the main account.
pub open spec fn closing_result(
    s: Seq<AccountState>,
    custody: usize,
    token_program: usize,
    main: usize,
    authority: (Seq<u8>, u8),
    authority_account: usize,
    record: usize,
    result: Result<Step, Failure>,
) -> bool {
    match closing_failure(
        s,
        custody as int,
        token_program as int,
        main as int,
        authority_account as int,
        record as int,
    ) {
        Some(e) => result == Err::<Step, Failure>(e),
        None => {
            &&& result matches Ok(Step::Invoke { invocation, stage })
            &&& invocation.instruction@ == close_account_call(
                s[token_program as int].key,
                s[custody as int].key,
                s[main as int].key,
                authority.0,
                authority.0,
            )
            &&& invocation.accounts@ == seq![custody, main, authority_account, token_program]
            &&& authority_view(invocation.signer) == Some(authority)
            &&& stage == (Stage::CustodyClose { main, record })
        },
    }
}

/// Why a request to cancel a trade is refused, checked in this order;
/// `None` where it is not. Only the initializer on record may cancel: the
/// signer must be that initializer.
pub open spec fn cancel_failure(s: Seq<AccountState>, f: CustodyFactsView) -> Option<Failure> {
    if s.len() < 1 {
        Some(Failure::NotEnoughAccountKeys)
    } else if !s[0].is_signer {
        Some(Failure::MissingRequiredSignature)
    } else if s.len() < 2 {
        Some(Failure::NotEnoughAccountKeys)
    } else if !is_token_program_id(s[1].owner) {
        Some(Failure::IncorrectProgramId)
    } else if s.len() < 3 {
        Some(Failure::NotEnoughAccountKeys)
    } else if decode(s[2].data) is Err {
        Some(decode(s[2].data)->Err_0)
    } else if s.len() < 5 {
        Some(Failure::NotEnoughAccountKeys)
    } else if f.custody_holding is Err {
        Some(Failure::Host(f.custody_holding->Err_0))
    } else if s.len() < 6 {
        Some(Failure::NotEnoughAccountKeys)
    } else if decode(s[2].data)->Ok_0.temp_token_account_pubkey != s[4].key {
        Some(Failure::InvalidAccountData)
    } else if decode(s[2].data)->Ok_0.initializer_pubkey != s[5].key {
        Some(Failure::InvalidAccountData)
    } else if decode(s[2].data)->Ok_0.initializer_token_to_receive_account_pubkey != s[1].key {
        Some(Failure::InvalidAccountData)
    } else if decode(s[2].data)->Ok_0.initializer_pubkey != s[0].key {
        Some(Failure::InvalidAccountData)
    } else if f.authority is None {
        Some(Failure::InvalidSeeds)
    } else if s.len() < 7 {
        Some(Failure::NotEnoughAccountKeys)
    } else if reclaim_overflows(s, 1, 5) {
        Some(Failure::Escrow(EscrowError::AmountOverflow))
    } else if !is_token_program_id(s[3].key) {
        Some(Failure::IncorrectProgramId)
    } else {
        None
    }
}

/// What a request to cancel a trade comes to: a refusal that changes
/// nothing, or the initializer's asset account reclaimed into the main
/// account and the closing of the trade asked for.
pub open spec fn cancel_result(
    s: Seq<AccountState>,
    f: CustodyFactsView,
    result: Result<Step, Failure>,
    t: Seq<AccountState>,
) -> bool {
    match cancel_failure(s, f) {
        Some(e) => result == Err::<Step, Failure>(e) && t == s,
        None => {
            &&& result is Ok
            &&& closing_result(s, 4, 3, 5, f.authority.unwrap(), 6, 2, result)
            &&& t == reclaim_effect(s, 1, 5)
        },
    }
}

/// What resuming an operation at a stage comes to, once the call of that
/// stage has succeeded.
pub open spec fn resume_result(
    stage: Stage,
    s: Seq<AccountState>,
    result: Result<Step, Failure>,
    t: Seq<AccountState>,
) -> bool {
    match stage {
        Stage::AuthorityChange => result matches Ok(Step::Done) && t == s,
        Stage::Payment { balance, authority } => {
            &&& t == s
            &&& if s.len() < 9 {
                result == Err::<Step, Failure>(Failure::NotEnoughAccountKeys)
            } else if !is_token_program_id(s[7].key) {
                result == Err::<Step, Failure>(Failure::IncorrectProgramId)
            } else {
                &&& result matches Ok(Step::Invoke { invocation, stage: next })
                &&& invocation.instruction@ == transfer_call(
                    s[7].key,
                    s[3].key,
                    s[2].key,
                    authority@.0,
                    authority@.0,
                    balance,
                )
                &&& invocation.accounts@ == seq![3usize, 2usize, 8usize, 7usize]
                &&& authority_view(invocation.signer) == Some(authority@)
                &&& next matches Stage::Release { authority: same }
                &&& same@ == authority@
            }
        },
        Stage::Release { authority } => {
            &&& t == s
            &&& closing_result(s, 3, 7, 4, authority@, 8, 6, result)
        },
        Stage::CustodyClose { main, record } => match reclaim_failure(
            s,
            record as int,
            main as int,
        ) {
            Some(e) => result == Err::<Step, Failure>(e) && t == s,
            None => result matches Ok(Step::Done) && t == reclaim_effect(
                s,
                record as int,
                main as int,
            ),
        },
    }
}

/// What a request comes to: the request bytes name the operation, the
/// facts about the accounts are those that the host gives under the
/// program `program_id`.
pub open spec fn process_result(
    program_id: Seq<u8>,
    s: Seq<AccountState>,
    input: Seq<u8>,
    result: Result<Step, Failure>,
    t: Seq<AccountState>,
) -> bool {
    match decode_instruction(input) {
        Ok(EscrowInstruction::InitEscrow { amount }) => open_result(
            s,
            amount,
            open_facts(s, program_id),
            result,
            t,
        ),
        Ok(EscrowInstruction::Exchange { amount }) => settle_result(
            s,
            amount,
            custody_facts(s, 3, program_id),
            result,
            t,
        ),
        Ok(EscrowInstruction::Cancel {  }) => cancel_result(
            s,
            custody_facts(s, 4, program_id),
            result,
            t,
        ),
        Err(e) => result == Err::<Step, Failure>(e) && t == s,
    }
}

/// The escrow's operations. Each runs up to the first call that the host
/// must make to the token service and names that call; the host makes it
/// and resumes the operation at the stage it was given.
pub struct Processor;

impl Processor {
    /// Starts the operation that the request bytes name.
    pub fn process(program_id: &Address, accounts: &mut Vec<Account>, instruction_data: &[u8]) -> (result:
        Result<Step, Failure>)
        ensures
            process_result(
                program_id@,
                states(old(accounts)@),
                instruction_data@,
                result,
                states(final(accounts)@),
            ),
    {
        match EscrowInstruction::unpack(instruction_data) {
            Ok(EscrowInstruction::InitEscrow { amount }) => Self::process_init_escrow(
                accounts,
                amount,
                program_id,
            ),
            Ok(EscrowInstruction::Exchange { amount }) => Self::process_exchange(
                accounts,
                amount,
                program_id,
            ),
            Ok(EscrowInstruction::Cancel {  }) => Self::process_cancel(accounts, program_id),
            Err(e) => Err(e),
        }
    }

    /// Starts opening a trade that demands `amount`.
    pub fn process_init_escrow(accounts: &mut Vec<Account>, amount: u64, program_id: &Address) -> (result:
        Result<Step, Failure>)
        ensures
            open_result(
                states(old(accounts)@),
                amount,
                open_facts(states(old(accounts)@), program_id@),
                result,
                states(final(accounts)@),
            ),
    {
        let facts = OpenFacts::gather(accounts, program_id);
        Self::open(accounts, amount, &facts)
    }

    /// Starts settling a trade for which the taker expects `amount`.
    pub fn process_exchange(accounts: &mut Vec<Account>, amount: u64, program_id: &Address) -> (result:
        Result<Step, Failure>)
        ensures
            settle_result(
                states(old(accounts)@),
                amount,
                custody_facts(states(old(accounts)@), 3, program_id@),
                result,
                states(final(accounts)@),
            ),
    {
        let facts = CustodyFacts::gather(accounts, 3, program_id);
        Self::settle(accounts, amount, &facts)
    }

    /// Starts cancelling a trade.
    pub fn process_cancel(accounts: &mut Vec<Account>, program_id: &Address) -> (result: Result<
        Step,
        Failure,
    >)
        ensures
            cancel_result(
                states(old(accounts)@),
                custody_facts(states(old(accounts)@), 4, program_id@),
                result,
                states(final(accounts)@),
            ),
    {
        let facts = CustodyFacts::gather(accounts, 4, program_id);
        Self::cancel(accounts, &facts)
    }

    /// Opens a trade that demands `amount`, given the facts about the
    /// accounts.
    pub fn open(accounts: &mut Vec<Account>, amount: u64, facts: &OpenFacts) -> (result: Result<
        Step,
        Failure,
    >)
        ensures
            open_result(states(old(accounts)@), amount, facts@, result, states(final(accounts)@)),
    {
        let n: usize = accounts.len();
        if n < 1 {
            return Err(Failure::NotEnoughAccountKeys);
        }
        if !accounts[0].is_signer {
            return Err(Failure::MissingRequiredSignature);
        }
        if n < 3 {
            return Err(Failure::NotEnoughAccountKeys);
        }
        if !is_token_program(&accounts[2].owner) {
            return Err(Failure::IncorrectProgramId);
        }
        if let Err(code) = facts.payout_holding {
            return Err(Failure::Host(code));
        }
        if n < 5 {
            return Err(Failure::NotEnoughAccountKeys);
        }
        match facts.rent_exempt {
            Err(code) => {
                return Err(Failure::Host(code));
            },
            Ok(exempt) => {
                if !exempt {
                    return Err(Failure::Escrow(EscrowError::NotRentExempt));
                }
            },
        }
        match Escrow::unpack_unchecked(accounts[3].data.as_slice()) {
            Err(e) => {
                return Err(e);
            },
            Ok(found) => {
                if found.is_initialized() {
                    return Err(Failure::AccountAlreadyInitialized);
                }
            },
        }
        let record = Escrow {
            is_initialized: true,
            initializer_pubkey: accounts[0].key,
            temp_token_account_pubkey: accounts[1].key,
            initializer_token_to_receive_account_pubkey: accounts[2].key,
            expected_amount: amount,
        };
        let mut storage: Vec<u8> = accounts[3].data.clone();
        if let Err(e) = Escrow::pack(record, &mut storage) {
            return Err(e);
        }
        let authority = match facts.authority {
            Some(authority) => authority,
            None => {
                return Err(Failure::InvalidSeeds);
            },
        };
        if n < 6 {
            return Err(Failure::NotEnoughAccountKeys);
        }
        let instruction = match set_authority(
            &accounts[5].key,
            &accounts[1].key,
            &authority.address,
            AuthorityType::AccountOwner,
            &accounts[0].key,
            &accounts[0].key,
        ) {
            Some(call) => call,
            None => {
                return Err(Failure::IncorrectProgramId);
            },
        };
        let key = accounts[3].key;
        set_data(accounts, &key, &storage);
        Ok(
            Step::Invoke {
                invocation: Invocation { instruction, accounts: vec![1, 0, 5], signer: None },
                stage: Stage::AuthorityChange,
            },
        )
    }

    /// Settles a trade for which the taker expects `amount`, given the
    /// facts about its custody.
    pub fn settle(accounts: &mut Vec<Account>, amount: u64, facts: &CustodyFacts) -> (result: Result<
        Step,
        Failure,
    >)
        ensures
            settle_result(states(old(accounts)@), amount, facts@, result, states(final(accounts)@)),
    {
        let n: usize = accounts.len();
        if n < 1 {
            return Err(Failure::NotEnoughAccountKeys);
        }
        if !accounts[0].is_signer {
            return Err(Failure::MissingRequiredSignature);
        }
        if n < 4 {
            return Err(Failure::NotEnoughAccountKeys);
        }
        let balance: u64 = match facts.custody_holding {
            Ok(balance) => balance,
            Err(code) => {
                return Err(Failure::Host(code));
            },
        };
        if amount != balance {
            return Err(Failure::Escrow(EscrowError::ExpectedAmountMismatch));
        }
        if n < 7 {
            return Err(Failure::NotEnoughAccountKeys);
        }
        let record = match Escrow::unpack(accounts[6].data.as_slice()) {
            Ok(record) => record,
            Err(e) => {
                return Err(e);
            },
        };
        if record.temp_token_account_pubkey != accounts[3].key {
            return Err(Failure::InvalidAccountData);
        }
        if record.initializer_pubkey != accounts[4].key {
            return Err(Failure::InvalidAccountData);
        }
        if record.initializer_token_to_receive_account_pubkey != accounts[5].key {
            return Err(Failure::InvalidAccountData);
        }
        let authority = match facts.authority {
            Some(authority) => authority,
            None => {
                return Err(Failure::InvalidSeeds);
            },
        };
        if n < 8 {
            return Err(Failure::NotEnoughAccountKeys);
        }
        match transfer(
            &accounts[7].key,
            &accounts[1].key,
            &accounts[5].key,
            &accounts[0].key,
            &accounts[0].key,
            record.expected_amount,
        ) {
            Some(payment) => Ok(
                Step::Invoke {
                    invocation: Invocation {
                        instruction: payment,
                        accounts: vec![1, 5, 0, 7],
                        signer: None,
                    },
                    stage: Stage::Payment { balance, authority },
                },
            ),
            None => Err(Failure::IncorrectProgramId),
        }
    }

    /// Cancels a trade, given the facts about its custody.
    pub fn cancel(accounts: &mut Vec<Account>, facts: &CustodyFacts) -> (result: Result<
        Step,
        Failure,
    >)
        ensures
            cancel_result(states(old(accounts)@), facts@, result, states(final(accounts)@)),
    {
        let n: usize = accounts.len();
        if n < 1 {
            return Err(Failure::NotEnoughAccountKeys);
        }
        if !accounts[0].is_signer {
            return Err(Failure::MissingRequiredSignature);
        }
        if n < 2 {
            return Err(Failure::NotEnoughAccountKeys);
        }
        if !is_token_program(&accounts[1].owner) {
            return Err(Failure::IncorrectProgramId);
        }
        if n < 3 {
            return Err(Failure::NotEnoughAccountKeys);
        }
        let record = match Escrow::unpack_unchecked(accounts[2].data.as_slice()) {
            Ok(record) => record,
            Err(e) => {
                return Err(e);
            },
        };
        if !record.is_initialized() {
            return Err(Failure::UninitializedAccount);
        }
        if n < 5 {
            return Err(Failure::NotEnoughAccountKeys);
        }
        if let Err(code) = facts.custody_holding {
            return Err(Failure::Host(code));
        }
        if n < 6 {
            return Err(Failure::NotEnoughAccountKeys);
        }
        if record.temp_token_account_pubkey != accounts[4].key {
            return Err(Failure::InvalidAccountData);
        }
        if record.initializer_pubkey != accounts[5].key {
            return Err(Failure::InvalidAccountData);
        }
        if record.initializer_token_to_receive_account_pubkey != accounts[1].key {
            return Err(Failure::InvalidAccountData);
        }
        if record.initializer_pubkey != accounts[0].key {
            return Err(Failure::InvalidAccountData);
        }
        let authority = match facts.authority {
            Some(authority) => authority,
            None => {
                return Err(Failure::InvalidSeeds);
            },
        };
        if n < 7 {
            return Err(Failure::NotEnoughAccountKeys);
        }
        if accounts[5].lamports.checked_add(accounts[1].lamports).is_none() {
            return Err(Failure::Escrow(EscrowError::AmountOverflow));
        }
        let step = match Self::close_pda_and_escrow(accounts, 4, 3, 5, authority, 6, 2) {
            Ok(step) => step,
            Err(e) => {
                return Err(e);
            },
        };
        let reclaimed = Self::reclaim(accounts, 1, 5);
        assert(reclaimed is Ok);
        Ok(step)
    }

    /// Resumes an operation at `stage`, after the call of that stage has
    /// succeeded; `accounts` are the accounts of the request as the call
    /// left them.
    pub fn resume(stage: Stage, accounts: &mut Vec<Account>) -> (result: Result<Step, Failure>)
        ensures
            resume_result(stage, states(old(accounts)@), result, states(final(accounts)@)),
    {
        let n: usize = accounts.len();
        match stage {
            Stage::AuthorityChange => Ok(Step::Done),
            Stage::Payment { balance, authority } => {
                if n < 9 {
                    return Err(Failure::NotEnoughAccountKeys);
                }
                match transfer(
                    &accounts[7].key,
                    &accounts[3].key,
                    &accounts[2].key,
                    &authority.address,
                    &authority.address,
                    balance,
                ) {
                    Some(release) => Ok(
                        Step::Invoke {
                            invocation: Invocation {
                                instruction: release,
                                accounts: vec![3, 2, 8, 7],
                                signer: Some(authority),
                            },
                            stage: Stage::Release { authority },
                        },
                    ),
                    None => Err(Failure::IncorrectProgramId),
                }
            },
            Stage::Release { authority } => Self::close_pda_and_escrow(
                accounts,
                3,
                7,
                4,
                authority,
                8,
                6,
            ),
            Stage::CustodyClose { main, record } => match Self::reclaim(accounts, record, main) {
                Ok(()) => Ok(Step::Done),
                Err(e) => Err(e),
            },
        }
    }

    /// Asks for the closing of a trade: the call that closes the custody
    /// account in favour of the initializer's main account, made on the
    /// word and in the name of the custody identity, and after it the
    /// reclaiming of the record storage into the main account. The accounts
    /// are given by their positions in the request.
    pub fn close_pda_and_escrow(
        accounts: &Vec<Account>,
        custody: usize,
        token_program: usize,
        main: usize,
        authority: CustodyAuthority,
        authority_account: usize,
        record: usize,
    ) -> (result: Result<Step, Failure>)
        ensures
            closing_result(
                states(accounts@),
                custody,
                token_program,
                main,
                authority@,
                authority_account,
                record,
                result,
            ),
    {
        let n: usize = accounts.len();
        if custody >= n || token_program >= n || main >= n || authority_account >= n || record
            >= n {
            return Err(Failure::NotEnoughAccountKeys);
        }
        match close_account(
            &accounts[token_program].key,
            &accounts[custody].key,
            &accounts[main].key,
            &authority.address,
            &authority.address,
        ) {
            Some(close) => Ok(
                Step::Invoke {
                    invocation: Invocation {
                        instruction: close,
                        accounts: vec![custody, main, authority_account, token_program],
                        signer: Some(authority),
                    },
                    stage: Stage::CustodyClose { main, record },
                },
            ),
            None => Err(Failure::IncorrectProgramId),
        }
    }

    /// Reclaims the account at position `from` into the account at
    /// position `to`: the balance moves, the data goes. Where a position
    /// lies outside the request or the balance does not fit, nothing
    /// changes.
    pub fn reclaim(accounts: &mut Vec<Account>, from: usize, to: usize) -> (result: Result<
        (),
        Failure,
    >)
        ensures
            match reclaim_failure(states(old(accounts)@), from as int, to as int) {
                Some(e) => result == Err::<(), Failure>(e) && states(final(accounts)@) == states(
                    old(accounts)@,
                ),
                None => result is Ok && states(final(accounts)@) == reclaim_effect(
                    states(old(accounts)@),
                    from as int,
                    to as int,
                ),
            },
    {
        if from >= accounts.len() || to >= accounts.len() {
            return Err(Failure::NotEnoughAccountKeys);
        }
        let sum: u64 = match accounts[to].lamports.checked_add(accounts[from].lamports) {
            Some(sum) => sum,
            None => {
                return Err(Failure::Escrow(EscrowError::AmountOverflow));
            },
        };
        let target = accounts[to].key;
        let source = accounts[from].key;
        let empty: Vec<u8> = Vec::new();
        set_lamports(accounts, &target, sum);
        set_lamports(accounts, &source, 0);
        set_data(accounts, &source, &empty);
        Ok(())
    }
}

} // verus!
