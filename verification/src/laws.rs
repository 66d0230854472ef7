use vstd::prelude::*;
use crate::account::{
    coherent, lemma_with_data_coherent, lemma_with_lamports_coherent, states, valid,
    with_lamports, Account, AccountState,
};
use crate::custody::{authority_view, custody_authority};
use crate::error::{EscrowError, Failure};
use crate::facts::{custody_facts, open_facts, CustodyFactsView, OpenFactsView};
use crate::processor::{
    cancel_failure, cancel_result, open_effect, open_failure, open_result, opened_record,
    reclaim_effect, reclaim_failure, resume_result, settle_failure, settle_result,
};
use crate::state::{decode, encode, lemma_encode_decode, EscrowView};
use crate::step::{Stage, Step};
use crate::token::{
    close_account_call, is_token_program_id, set_authority_call, transfer_call, AuthorityType,
};

verus! {

/// A trade that was opened is on record: the record storage held no open
/// trade before and holds one after, whose fields are the initializer, the
/// custody account, the payout account and the amount of the request, and
/// no other account changed.
pub proof fn law_open_records_the_trade(s: Seq<AccountState>, amount: u64, f: OpenFactsView)
    requires
        valid(s),
        open_failure(s, f) is None,
    ensures
        decode(s[3].data) == Err::<EscrowView, Failure>(Failure::UninitializedAccount),
        decode(open_effect(s, amount)[3].data) == Ok::<EscrowView, Failure>(
            opened_record(s, amount),
        ),
        opened_record(s, amount).is_initialized,
        opened_record(s, amount).initializer_pubkey == s[0].key,
        opened_record(s, amount).temp_token_account_pubkey == s[1].key,
        opened_record(s, amount).initializer_token_to_receive_account_pubkey == s[2].key,
        opened_record(s, amount).expected_amount == amount,
        open_effect(s, amount).len() == s.len(),
        forall|i: int|
            0 <= i < s.len() && s[i].key != s[3].key ==> open_effect(s, amount)[i] == s[i],
        forall|i: int|
            0 <= i < s.len() ==> open_effect(s, amount)[i].key == s[i].key && open_effect(
                s,
                amount,
            )[i].lamports == s[i].lamports,
{
    lemma_encode_decode(opened_record(s, amount));
}

/// A trade that is opened takes the custody account out of the
/// initializer's hands: the call that the host is to make asks the token
/// service to make the program's custody identity the owner of the custody
/// account, on the word and signature of the initializer.
pub proof fn law_open_hands_custody_over(
    s: Seq<AccountState>,
    amount: u64,
    program_id: Seq<u8>,
    result: Result<Step, Failure>,
    t: Seq<AccountState>,
)
    requires
        open_result(s, amount, open_facts(s, program_id), result, t),
        result is Ok,
    ensures
        custody_authority(program_id) is Some,
        result.unwrap() is Invoke,
        result.unwrap()->invocation.instruction@ == set_authority_call(
            s[5].key,
            s[1].key,
            custody_authority(program_id).unwrap().0,
            AuthorityType::AccountOwner,
            s[0].key,
            s[0].key,
        ),
        result.unwrap()->invocation.signer is None,
{
}

/// A trade cannot be opened twice on the same record storage: after a
/// trade was opened, the same request is refused because the storage is
/// taken, and no request to open succeeds on these accounts.
pub proof fn law_open_twice(s: Seq<AccountState>, amount: u64, f: OpenFactsView)
    requires
        valid(s),
        open_failure(s, f) is None,
    ensures
        open_failure(open_effect(s, amount), f) == Some(Failure::AccountAlreadyInitialized),
        forall|g: OpenFactsView| (#[trigger] open_failure(open_effect(s, amount), g)) is Some,
{
    law_open_records_the_trade(s, amount, f);
}

/// A taker who signed and expects another amount than custody holds is
/// refused, by however little the two differ, whatever the record demands.
pub proof fn law_settle_amount_mismatch(
    s: Seq<AccountState>,
    amount: u64,
    balance: u64,
    f: CustodyFactsView,
)
    requires
        s.len() >= 4,
        s[0].is_signer,
        f.custody_holding == Ok::<u64, u64>(balance),
        amount != balance,
    ensures
        settle_failure(s, amount, f) == Some(Failure::Escrow(EscrowError::ExpectedAmountMismatch)),
{
}

/// A request to settle that names another custody account, another main
/// account of the initializer or another payout account than the record
/// does is refused, where the request is signed, the amount is the custody
/// balance and the record storage holds an open trade.
pub proof fn law_settle_substituted_account(
    s: Seq<AccountState>,
    amount: u64,
    f: CustodyFactsView,
    record: EscrowView,
)
    requires
        s.len() >= 7,
        s[0].is_signer,
        f.custody_holding == Ok::<u64, u64>(amount),
        decode(s[6].data) == Ok::<EscrowView, Failure>(record),
        record.temp_token_account_pubkey != s[3].key || record.initializer_pubkey != s[4].key
            || record.initializer_token_to_receive_account_pubkey != s[5].key,
    ensures
        settle_failure(s, amount, f) == Some(Failure::InvalidAccountData),
{
}

/// What a trade that settles asks of the token service, in this order: the
/// taker pays the amount on record from the taker's source account into the
/// initializer's payout account; the custody identity releases the whole
/// custody balance, which is the amount the taker expected, to the taker's
/// destination account; the custody identity closes the custody account
/// in favour of the initializer's main account; and then the record
/// storage, the seventh account, is reclaimed into the main account, the
/// fifth. The accounts are those that the record names, and `paid` and
/// `released` are the accounts as the calls left them, under the addresses
/// they had.
pub proof fn law_settle_order_of_calls(
    s: Seq<AccountState>,
    amount: u64,
    program_id: Seq<u8>,
    started: Result<Step, Failure>,
    paid: Seq<AccountState>,
    releasing: Result<Step, Failure>,
    released: Seq<AccountState>,
    closing: Result<Step, Failure>,
)
    requires
        settle_result(s, amount, custody_facts(s, 3, program_id), started, s),
        started is Ok,
        paid.len() == s.len(),
        released.len() == s.len(),
        forall|i: int| 0 <= i < s.len() ==> paid[i].key == s[i].key && released[i].key == s[i].key,
        s.len() >= 9,
        resume_result(started.unwrap()->stage, paid, releasing, paid),
        releasing is Ok ==> resume_result(releasing.unwrap()->stage, released, closing, released),
    ensures
        decode(s[6].data) is Ok,
        decode(s[6].data).unwrap().temp_token_account_pubkey == s[3].key,
        decode(s[6].data).unwrap().initializer_pubkey == s[4].key,
        decode(s[6].data).unwrap().initializer_token_to_receive_account_pubkey == s[5].key,
        custody_authority(program_id) is Some,
        custody_facts(s, 3, program_id).custody_holding == Ok::<u64, u64>(amount),
        started matches Ok(Step::Invoke { invocation, .. }) && invocation.instruction@
            == transfer_call(
            s[7].key,
            s[1].key,
            s[5].key,
            s[0].key,
            s[0].key,
            decode(s[6].data).unwrap().expected_amount,
        ) && invocation.signer is None,
        releasing matches Ok(Step::Invoke { invocation, .. }) && invocation.instruction@
            == transfer_call(
            s[7].key,
            s[3].key,
            s[2].key,
            custody_authority(program_id).unwrap().0,
            custody_authority(program_id).unwrap().0,
            amount,
        ) && authority_view(invocation.signer) == custody_authority(program_id),
        closing matches Ok(Step::Invoke { invocation, stage }) && invocation.instruction@
            == close_account_call(
            s[7].key,
            s[3].key,
            s[4].key,
            custody_authority(program_id).unwrap().0,
            custody_authority(program_id).unwrap().0,
        ) && authority_view(invocation.signer) == custody_authority(program_id) && stage == (
            Stage::CustodyClose { main: 4, record: 6 }
        ),
{
}

/// What a trade that is cancelled asks of the token service: only that the
/// custody identity close the custody account in favour of the
/// initializer's main account. No tokens move; the signer is the
/// initializer on record, and the accounts are those that the record
/// names. After the call the record storage, the third account, is
/// reclaimed into the main account, the sixth.
pub proof fn law_cancel_requests(
    s: Seq<AccountState>,
    program_id: Seq<u8>,
    result: Result<Step, Failure>,
    t: Seq<AccountState>,
)
    requires
        cancel_result(s, custody_facts(s, 4, program_id), result, t),
        result is Ok,
    ensures
        decode(s[2].data) is Ok,
        decode(s[2].data).unwrap().initializer_pubkey == s[0].key,
        decode(s[2].data).unwrap().temp_token_account_pubkey == s[4].key,
        decode(s[2].data).unwrap().initializer_pubkey == s[5].key,
        decode(s[2].data).unwrap().initializer_token_to_receive_account_pubkey == s[1].key,
        custody_authority(program_id) is Some,
        result matches Ok(Step::Invoke { invocation, stage }) && invocation.instruction@
            == close_account_call(
            s[3].key,
            s[4].key,
            s[5].key,
            custody_authority(program_id).unwrap().0,
            custody_authority(program_id).unwrap().0,
        ) && authority_view(invocation.signer) == custody_authority(program_id) && stage == (
            Stage::CustodyClose { main: 5, record: 2 }
        ),
        t == reclaim_effect(s, 1, 5),
{
}

/// Only the initializer on record may cancel: a request to cancel whose
/// signer is not the initializer that the record storage names is refused,
/// whoever else it names and whatever the host says of its accounts, and
/// changes nothing.
pub proof fn law_cancel_by_a_stranger(
    s: Seq<AccountState>,
    f: CustodyFactsView,
    result: Result<Step, Failure>,
    t: Seq<AccountState>,
)
    requires
        s.len() >= 3 && decode(s[2].data) is Ok ==> decode(s[2].data).unwrap().initializer_pubkey
            != s[0].key,
        cancel_result(s, f, result, t),
    ensures
        cancel_failure(s, f) is Some,
        result is Err,
        t == s,
        s.len() >= 7 && s[0].is_signer && is_token_program_id(s[1].owner) && decode(s[2].data) is Ok
            && f.custody_holding is Ok ==> result == Err::<Step, Failure>(
            Failure::InvalidAccountData,
        ),
{
}

/// Reclaiming one account into another moves the whole balance and
/// nothing else: the receiving account gains exactly what the reclaimed
/// one held, the reclaimed one is left with no balance and no data, and
/// every other account is as it was.
pub proof fn law_reclaim_moves_the_balance(s: Seq<AccountState>, from: int, to: int)
    requires
        0 <= from < s.len(),
        0 <= to < s.len(),
        s[from].key != s[to].key,
        reclaim_failure(s, from, to) is None,
    ensures
        reclaim_effect(s, from, to).len() == s.len(),
        reclaim_effect(s, from, to)[to].lamports == s[to].lamports + s[from].lamports,
        reclaim_effect(s, from, to)[to].data == s[to].data,
        reclaim_effect(s, from, to)[from].lamports == 0,
        reclaim_effect(s, from, to)[from].data.len() == 0,
        forall|i: int|
            0 <= i < s.len() && s[i].key != s[from].key && s[i].key != s[to].key
                ==> reclaim_effect(s, from, to)[i] == s[i],
        forall|i: int|
            0 <= i < s.len() ==> reclaim_effect(s, from, to)[i].key == s[i].key && reclaim_effect(
                s,
                from,
                to,
            )[i].owner == s[i].owner && reclaim_effect(s, from, to)[i].is_signer == s[i].is_signer,
{
}

/// An account that is reclaimed into itself is left with no balance and no
/// data: where the record storage is also named as the main account, the
/// balance is gone with the record.
pub proof fn law_reclaim_into_itself(s: Seq<AccountState>, from: int, to: int)
    requires
        0 <= from < s.len(),
        0 <= to < s.len(),
        s[from].key == s[to].key,
    ensures
        reclaim_effect(s, from, to)[to].lamports == 0,
        reclaim_effect(s, from, to)[to].data.len() == 0,
        reclaim_effect(s, from, to)[from].lamports == 0,
        reclaim_effect(s, from, to)[from].data.len() == 0,
{
}

/// The last stage of a trade that settles or is cancelled deletes the
/// record: where it succeeds, the record storage is left with no balance
/// and no data, and holds no open trade.
pub proof fn law_close_deletes_the_record(
    s: Seq<AccountState>,
    main: usize,
    record: usize,
    result: Result<Step, Failure>,
    t: Seq<AccountState>,
)
    requires
        resume_result(Stage::CustodyClose { main, record }, s, result, t),
        result is Ok,
    ensures
        record < t.len(),
        t[record as int].lamports == 0,
        t[record as int].data.len() == 0,
        decode(t[record as int].data) == Err::<EscrowView, Failure>(Failure::UninitializedAccount),
{
}

/// A trade whose record was deleted cannot be cancelled: on cleared record
/// storage a request to cancel is always refused, and a request that is
/// signed and names an asset account of the token service is refused
/// because the storage holds no open trade.
pub proof fn law_cancel_after_close(s: Seq<AccountState>, f: CustodyFactsView)
    requires
        s.len() >= 3 ==> s[2].data.len() == 0,
    ensures
        cancel_failure(s, f) is Some,
        s.len() >= 3 && s[0].is_signer && is_token_program_id(s[1].owner) ==> cancel_failure(s, f)
            == Some(Failure::UninitializedAccount),
{
}

/// A trade whose record was deleted cannot be settled: on cleared record
/// storage a request to settle is always refused.
pub proof fn law_settle_after_close(s: Seq<AccountState>, amount: u64, f: CustodyFactsView)
    requires
        s.len() >= 7 ==> s[6].data.len() == 0,
    ensures
        settle_failure(s, amount, f) is Some,
{
}

/// A request that is refused changes no account.
pub proof fn law_refusal_changes_nothing(
    s: Seq<AccountState>,
    amount: u64,
    open: OpenFactsView,
    custody: CustodyFactsView,
    stage: Stage,
    result: Result<Step, Failure>,
    t: Seq<AccountState>,
)
    requires
        result is Err,
        open_result(s, amount, open, result, t) || settle_result(s, amount, custody, result, t)
            || cancel_result(s, custody, result, t) || resume_result(stage, s, result, t),
    ensures
        t == s,
{
}

/// The accounts of a request are valid: every address among them has its
/// 32 bytes.
pub proof fn law_accounts_are_valid(accounts: Seq<Account>)
    ensures
        valid(states(accounts)),
        states(accounts).len() == accounts.len(),
{
}

/// The operations keep the accounts coherent: where entries with one
/// address showed one account before a trade was opened or an account was
/// reclaimed, they do so after it.
pub proof fn law_accounts_stay_coherent(s: Seq<AccountState>, amount: u64, from: int, to: int)
    requires
        coherent(s),
    ensures
        s.len() >= 4 ==> coherent(open_effect(s, amount)),
        0 <= from < s.len() && 0 <= to < s.len() ==> coherent(reclaim_effect(s, from, to)),
{
    if s.len() >= 4 {
        lemma_with_data_coherent(s, s[3].key, encode(opened_record(s, amount)));
    }
    if 0 <= from < s.len() && 0 <= to < s.len() {
        let sum = (s[to].lamports + s[from].lamports) as u64;
        let credited = with_lamports(s, s[to].key, sum);
        lemma_with_lamports_coherent(s, s[to].key, sum);
        let emptied = with_lamports(credited, s[from].key, 0);
        lemma_with_lamports_coherent(credited, s[from].key, 0);
        lemma_with_data_coherent(emptied, s[from].key, Seq::empty());
    }
}

/// Every call that the host is asked to make works on accounts of the
/// request: each position that the call names lies within the request.
pub proof fn law_calls_name_accounts_of_the_request(
    s: Seq<AccountState>,
    amount: u64,
    open: OpenFactsView,
    custody: CustodyFactsView,
    stage: Stage,
    result: Result<Step, Failure>,
    t: Seq<AccountState>,
)
    requires
        open_result(s, amount, open, result, t) || settle_result(s, amount, custody, result, t)
            || cancel_result(s, custody, result, t) || resume_result(stage, s, result, t),
    ensures
        result matches Ok(Step::Invoke { invocation, .. }) ==> invocation.within(s.len()),
        t.len() == s.len(),
{
}

} // verus!
