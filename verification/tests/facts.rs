use escrow::account::Account;
use escrow::address::Address;
use escrow::custody::CustodyAuthority;
use escrow::facts::{find_rent, CustodyFacts, OpenFacts};
use escrow::state::Escrow;
use escrow::token::token_program;
use solana_program::program_error::ProgramError;
use solana_program::program_option::COption;
use solana_program::program_pack::Pack;
use solana_program::pubkey::Pubkey;
use spl_token::state::{Account as Holding, AccountState, Mint};

const PROGRAM: [u8; 32] = [9; 32];

fn address(byte: u8) -> Address {
    Address::new([byte; 32])
}

fn token_service() -> Address {
    Address::new(spl_token::id().to_bytes())
}

fn custody() -> CustodyAuthority {
    let (address, bump) =
        Pubkey::find_program_address(&[b"escrow"], &Pubkey::new_from_array(PROGRAM));
    CustodyAuthority { address: Address::new(address.to_bytes()), bump }
}

fn holding(amount: u64) -> Vec<u8> {
    let account = Holding {
        mint: Pubkey::new_from_array([7; 32]),
        owner: Pubkey::new_from_array([8; 32]),
        amount,
        delegate: COption::None,
        state: AccountState::Initialized,
        is_native: COption::None,
        delegated_amount: 0,
        close_authority: COption::None,
    };
    let mut data = vec![0u8; Holding::LEN];
    Holding::pack(account, &mut data).unwrap();
    data
}

fn mint() -> Vec<u8> {
    let mint = Mint {
        mint_authority: COption::None,
        supply: 5,
        decimals: 2,
        is_initialized: true,
        freeze_authority: COption::None,
    };
    let mut data = vec![0u8; Mint::LEN];
    Mint::pack(mint, &mut data).unwrap();
    data
}

fn rent_data(rate: u64, threshold: f64, burn: u8) -> Vec<u8> {
    let mut data = rate.to_le_bytes().to_vec();
    data.extend_from_slice(&threshold.to_le_bytes());
    data.push(burn);
    data
}

fn account(key: Address, owner: Address, is_signer: bool, lamports: u64, data: Vec<u8>) -> Account {
    Account { key, owner, is_signer, lamports, data }
}

fn rent_account(data: Vec<u8>) -> Account {
    account(
        Address::new(solana_program::sysvar::rent::id().to_bytes()),
        Address::new(solana_program::sysvar::id().to_bytes()),
        false,
        1,
        data,
    )
}

fn record(amount: u64) -> Vec<u8> {
    Escrow {
        is_initialized: true,
        initializer_pubkey: address(1),
        temp_token_account_pubkey: address(2),
        initializer_token_to_receive_account_pubkey: address(3),
        expected_amount: amount,
    }
    .to_bytes()
}

fn open_accounts() -> Vec<Account> {
    vec![
        account(address(1), address(0), true, 1000, vec![]),
        account(address(2), token_service(), false, 2_039_280, holding(500)),
        account(address(3), token_service(), false, 2_039_280, holding(0)),
        account(address(4), Address::new(PROGRAM), false, 1_621_680, vec![0; 105]),
        rent_account(rent_data(3480, 2.0, 50)),
        account(token_service(), address(0), false, 1, vec![]),
    ]
}

fn settle_accounts() -> Vec<Account> {
    vec![
        account(address(11), address(0), true, 1000, vec![]),
        account(address(12), token_service(), false, 2_039_280, holding(900)),
        account(address(13), token_service(), false, 2_039_280, holding(0)),
        account(address(2), token_service(), false, 2_039_280, holding(500)),
        account(address(1), address(0), false, 1000, vec![]),
        account(address(3), token_service(), false, 2_039_280, holding(0)),
        account(address(4), Address::new(PROGRAM), false, 1_621_680, record(300)),
        account(token_service(), address(0), false, 1, vec![]),
        account(custody().address, address(0), false, 0, vec![]),
    ]
}

fn cancel_accounts() -> Vec<Account> {
    vec![
        account(address(1), address(0), true, 1000, vec![]),
        account(address(3), token_service(), false, 2_039_280, holding(0)),
        account(address(4), Address::new(PROGRAM), false, 1_621_680, record(300)),
        account(token_service(), address(0), false, 1, vec![]),
        account(address(2), token_service(), false, 2_039_280, holding(500)),
        account(address(1), address(0), true, 1000, vec![]),
        account(custody().address, address(0), false, 0, vec![]),
    ]
}

#[test]
fn the_seed_spells_escrow() {
    assert_eq!(CustodyAuthority::seed(), b"escrow".to_vec());
}

#[test]
fn the_custody_identity_is_the_program_address_of_the_host() {
    for program in [[9u8; 32], [0u8; 32], [255u8; 32], [42u8; 32]] {
        let (address, bump) =
            Pubkey::find_program_address(&[b"escrow"], &Pubkey::new_from_array(program));
        let derived = CustodyAuthority::derive(&Address::new(program)).unwrap();
        assert_eq!(derived.address.bytes, address.to_bytes());
        assert_eq!(derived.bump, bump);
        assert_ne!(derived.address, Address::new(program));
    }
}

#[test]
fn rent_exemption_starts_at_the_minimum_balance() {
    let rent = rent_account(rent_data(3480, 2.0, 50));
    assert_eq!(find_rent(&rent, 1_621_680, 105), Ok(true));
    assert_eq!(find_rent(&rent, 1_621_679, 105), Ok(false));
    assert_eq!(find_rent(&rent, u64::MAX, 105), Ok(true));
    assert_eq!(find_rent(&rent, 0, 105), Ok(false));
    assert_eq!(find_rent(&rent, 890_880, 0), Ok(true));
    assert_eq!(find_rent(&rent, 890_879, 0), Ok(false));
}

#[test]
fn rent_follows_the_rule_in_the_rent_account() {
    let rent = rent_account(rent_data(10, 1.0, 0));
    assert_eq!(find_rent(&rent, 2330, 105), Ok(true));
    assert_eq!(find_rent(&rent, 2329, 105), Ok(false));
    let free = rent_account(rent_data(0, 2.0, 0));
    assert_eq!(find_rent(&free, 0, 105), Ok(true));
}

#[test]
fn a_rate_too_large_to_apply_exempts_nothing() {
    let rent = rent_account(rent_data(u64::MAX, 2.0, 50));
    assert_eq!(find_rent(&rent, u64::MAX, 105), Ok(false));
    let edge = rent_account(rent_data(u64::MAX / 233 + 1, 0.0, 50));
    assert_eq!(find_rent(&edge, u64::MAX, 105), Ok(false));
    let fits = rent_account(rent_data(u64::MAX / 233, 0.0, 50));
    assert_eq!(find_rent(&fits, 0, 105), Ok(true));
}

#[test]
fn another_account_in_place_of_the_rent_account_is_refused() {
    let mut rent = rent_account(rent_data(3480, 2.0, 50));
    rent.key = address(5);
    assert_eq!(
        find_rent(&rent, u64::MAX, 105),
        Err(u64::from(ProgramError::InvalidArgument))
    );
    let short = rent_account(vec![1, 2, 3]);
    assert_eq!(
        find_rent(&short, u64::MAX, 105),
        Err(u64::from(ProgramError::InvalidArgument))
    );
}

#[test]
fn the_token_service_has_the_address_it_declares() {
    assert_eq!(token_program().bytes, spl_token::id().to_bytes());
    assert!(spl_token::check_id(&Pubkey::new_from_array(token_program().bytes)));
}

#[test]
fn open_facts_describe_the_accounts() {
    let accounts = open_accounts();
    let facts = OpenFacts::gather(&accounts, &Address::new(PROGRAM));
    assert_eq!(
        facts,
        OpenFacts { payout_holding: Ok(0), rent_exempt: Ok(true), authority: Some(custody()) }
    );
}

#[test]
fn open_facts_tell_a_holding_from_a_mint() {
    let mut accounts = open_accounts();
    accounts[2].data = holding(77);
    let facts = OpenFacts::gather(&accounts, &Address::new(PROGRAM));
    assert_eq!(facts.payout_holding, Ok(77));
    accounts[2].data = mint();
    let facts = OpenFacts::gather(&accounts, &Address::new(PROGRAM));
    assert_eq!(facts.payout_holding, Err(u64::from(ProgramError::InvalidAccountData)));
    accounts[2].data = vec![0; 165];
    let facts = OpenFacts::gather(&accounts, &Address::new(PROGRAM));
    assert_eq!(facts.payout_holding, Err(u64::from(ProgramError::UninitializedAccount)));
    accounts[2].data = vec![];
    let facts = OpenFacts::gather(&accounts, &Address::new(PROGRAM));
    assert_eq!(facts.payout_holding, Err(u64::from(ProgramError::InvalidAccountData)));
}

#[test]
fn open_facts_see_a_balance_below_the_minimum() {
    let mut accounts = open_accounts();
    accounts[3].lamports = 1_621_679;
    let facts = OpenFacts::gather(&accounts, &Address::new(PROGRAM));
    assert_eq!(facts.rent_exempt, Ok(false));
    accounts[4].key = address(5);
    let facts = OpenFacts::gather(&accounts, &Address::new(PROGRAM));
    assert_eq!(facts.rent_exempt, Err(u64::from(ProgramError::InvalidArgument)));
}

#[test]
fn open_facts_of_a_short_request_are_blank() {
    let accounts = open_accounts()[..2].to_vec();
    let facts = OpenFacts::gather(&accounts, &Address::new(PROGRAM));
    assert_eq!(
        facts,
        OpenFacts { payout_holding: Err(0), rent_exempt: Err(0), authority: Some(custody()) }
    );
    let accounts = open_accounts()[..4].to_vec();
    let facts = OpenFacts::gather(&accounts, &Address::new(PROGRAM));
    assert_eq!(facts.payout_holding, Ok(0));
    assert_eq!(facts.rent_exempt, Err(0));
}

#[test]
fn custody_facts_describe_the_custody_account() {
    let facts = CustodyFacts::gather(&settle_accounts(), 3, &Address::new(PROGRAM));
    assert_eq!(facts, CustodyFacts { custody_holding: Ok(500), authority: Some(custody()) });
    let facts = CustodyFacts::gather(&cancel_accounts(), 4, &Address::new(PROGRAM));
    assert_eq!(facts, CustodyFacts { custody_holding: Ok(500), authority: Some(custody()) });
    let facts = CustodyFacts::gather(&settle_accounts(), 1, &Address::new(PROGRAM));
    assert_eq!(facts.custody_holding, Ok(900));
}

#[test]
fn custody_facts_tell_a_holding_from_other_data() {
    let mut accounts = settle_accounts();
    accounts[3].data = mint();
    let facts = CustodyFacts::gather(&accounts, 3, &Address::new(PROGRAM));
    assert_eq!(facts.custody_holding, Err(u64::from(ProgramError::InvalidAccountData)));
    accounts[3].data = vec![0; 165];
    let facts = CustodyFacts::gather(&accounts, 3, &Address::new(PROGRAM));
    assert_eq!(facts.custody_holding, Err(u64::from(ProgramError::UninitializedAccount)));
    assert_eq!(facts.authority, Some(custody()));
}

#[test]
fn custody_facts_of_a_short_request_are_blank() {
    let accounts = settle_accounts()[..3].to_vec();
    let facts = CustodyFacts::gather(&accounts, 3, &Address::new(PROGRAM));
    assert_eq!(facts, CustodyFacts { custody_holding: Err(0), authority: Some(custody()) });
    let facts = CustodyFacts::gather(&Vec::new(), 0, &Address::new(PROGRAM));
    assert_eq!(facts.custody_holding, Err(0));
}
