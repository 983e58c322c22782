use exchange_booth::address::{
    derive_booth_address, derive_oracle_address, derive_vault_address, Address,
};
use exchange_booth::error::{ExchangeBoothError, ProcessError};
use exchange_booth::processor::close::reclaimed_lamports;
use exchange_booth::processor::{
    close, deposit, exchange, initialize, process_instruction, withdraw, AccountRef,
    KnownPrograms, Op, SignerSeeds,
};
use exchange_booth::state::{ExchangeBoothAccount, OracleAccount};
use solana_program::program_option::COption;
use solana_program::program_pack::Pack;
use solana_program::pubkey::Pubkey;

fn addr(byte: u8) -> Address {
    Address { bytes: [byte; 32] }
}

fn program_id() -> Address {
    addr(7)
}

fn programs() -> KnownPrograms {
    KnownPrograms {
        system_program: Address { bytes: solana_program::system_program::ID.to_bytes() },
        token_program: Address { bytes: spl_token::ID.to_bytes() },
        rent_sysvar: Address { bytes: solana_program::sysvar::rent::ID.to_bytes() },
    }
}

fn account(key: Address, is_signer: bool, data: Vec<u8>) -> AccountRef {
    AccountRef { key, is_signer, lamports: 1_000_000, data }
}

fn token_data(mint: Address, owner: Address, amount: u64) -> Vec<u8> {
    let state = spl_token::state::Account {
        mint: Pubkey::new_from_array(mint.bytes),
        owner: Pubkey::new_from_array(owner.bytes),
        amount,
        delegate: COption::None,
        state: spl_token::state::AccountState::Initialized,
        is_native: COption::None,
        delegated_amount: 0,
        close_authority: COption::None,
    };
    let mut data = vec![0u8; spl_token::state::Account::LEN];
    spl_token::state::Account::pack(state, &mut data).unwrap();
    data
}

fn mint_data(decimals: u8) -> Vec<u8> {
    let state = spl_token::state::Mint {
        mint_authority: COption::None,
        supply: 1_000_000,
        decimals,
        is_initialized: true,
        freeze_authority: COption::None,
    };
    let mut data = vec![0u8; spl_token::state::Mint::LEN];
    spl_token::state::Mint::pack(state, &mut data).unwrap();
    data
}

struct Booth {
    admin: Address,
    mint_a: Address,
    mint_b: Address,
    oracle: Address,
    booth: Address,
    vault_a: Address,
    vault_b: Address,
    oracle_bump: u8,
    booth_bump: u8,
    vault_a_bump: u8,
    vault_b_bump: u8,
}

fn booth_of(admin: Address) -> Booth {
    let pid = program_id();
    let mint_a = addr(2);
    let mint_b = addr(3);
    let (oracle, oracle_bump) = derive_oracle_address(&admin, &mint_a, &mint_b, &pid).unwrap();
    let (booth, booth_bump) = derive_booth_address(&oracle, &pid).unwrap();
    let (vault_a, vault_a_bump) = derive_vault_address(&booth, &mint_a, &pid).unwrap();
    let (vault_b, vault_b_bump) = derive_vault_address(&booth, &mint_b, &pid).unwrap();
    Booth {
        admin,
        mint_a,
        mint_b,
        oracle,
        booth,
        vault_a,
        vault_b,
        oracle_bump,
        booth_bump,
        vault_a_bump,
        vault_b_bump,
    }
}

fn initialize_accounts(b: &Booth) -> Vec<AccountRef> {
    let p = programs();
    vec![
        account(b.admin, true, vec![]),
        account(b.booth, false, vec![]),
        account(p.system_program, false, vec![]),
        account(b.mint_a, false, mint_data(1)),
        account(b.mint_b, false, mint_data(1)),
        account(b.vault_a, false, vec![]),
        account(b.vault_b, false, vec![]),
        account(b.oracle, false, vec![]),
        account(p.token_program, false, vec![]),
        account(p.rent_sysvar, false, vec![]),
    ]
}

fn close_accounts(b: &Booth, amount_a: u64, amount_b: u64) -> Vec<AccountRef> {
    vec![
        AccountRef { key: b.admin, is_signer: true, lamports: 5_000, data: vec![] },
        AccountRef { key: b.booth, is_signer: false, lamports: 900, data: vec![0; 9] },
        account(b.vault_a, false, token_data(b.mint_a, b.vault_a, amount_a)),
        account(b.vault_b, false, token_data(b.mint_b, b.vault_b, amount_b)),
        account(b.mint_a, false, mint_data(1)),
        account(b.mint_b, false, mint_data(1)),
        account(addr(40), false, token_data(b.mint_a, b.admin, 0)),
        account(addr(41), false, token_data(b.mint_b, b.admin, 0)),
        AccountRef { key: b.oracle, is_signer: false, lamports: 800, data: vec![0; 9] },
        account(programs().token_program, false, vec![]),
    ]
}

fn exchange_accounts(b: &Booth, trader_gives_a: bool, amount: u64) -> Vec<AccountRef> {
    let trader = addr(50);
    let (donor_mint, receiver_mint) =
        if trader_gives_a { (b.mint_a, b.mint_b) } else { (b.mint_b, b.mint_a) };
    let (receiver_vault, donor_vault) =
        if trader_gives_a { (b.vault_a, b.vault_b) } else { (b.vault_b, b.vault_a) };
    vec![
        account(trader, true, vec![]),
        account(b.admin, false, vec![]),
        account(receiver_vault, false, token_data(donor_mint, receiver_vault, 0)),
        account(donor_vault, false, token_data(receiver_mint, donor_vault, 1_000_000)),
        account(addr(51), false, token_data(receiver_mint, trader, 0)),
        account(addr(52), false, token_data(donor_mint, trader, amount)),
        account(b.oracle, false, OracleAccount { exchange_rate: 5, decimals: 1 }.pack()),
        account(b.booth, false, ExchangeBoothAccount { fee: 1, decimals: 1 }.pack()),
        account(donor_mint, false, mint_data(1)),
        account(receiver_mint, false, mint_data(1)),
        account(programs().token_program, false, vec![]),
    ]
}

#[test]
fn derived_addresses_are_the_hosts_program_addresses() {
    let pid = program_id();
    let admin = addr(1);
    let (oracle, bump) = derive_oracle_address(&admin, &addr(2), &addr(3), &pid).unwrap();
    let (expected, expected_bump) = Pubkey::find_program_address(
        &[&admin.bytes, &addr(2).bytes, &addr(3).bytes],
        &Pubkey::new_from_array(pid.bytes),
    );
    assert_eq!(oracle.bytes, expected.to_bytes());
    assert_eq!(bump, expected_bump);
    assert_ne!(oracle, admin);
}

#[test]
fn derivation_is_stable_and_each_seed_matters() {
    let pid = program_id();
    let first = derive_oracle_address(&addr(1), &addr(2), &addr(3), &pid).unwrap();
    let again = derive_oracle_address(&addr(1), &addr(2), &addr(3), &pid).unwrap();
    assert_eq!(first.0, again.0);
    assert_eq!(first.1, again.1);
    let other_admin = derive_oracle_address(&addr(9), &addr(2), &addr(3), &pid).unwrap();
    let other_a = derive_oracle_address(&addr(1), &addr(9), &addr(3), &pid).unwrap();
    let other_b = derive_oracle_address(&addr(1), &addr(2), &addr(9), &pid).unwrap();
    let swapped = derive_oracle_address(&addr(1), &addr(3), &addr(2), &pid).unwrap();
    let other_program = derive_oracle_address(&addr(1), &addr(2), &addr(3), &addr(8)).unwrap();
    for other in [other_admin, other_a, other_b, swapped, other_program] {
        assert_ne!(first.0, other.0);
    }
    let vault = derive_vault_address(&addr(4), &addr(2), &pid).unwrap();
    assert_ne!(vault.0, derive_vault_address(&addr(4), &addr(3), &pid).unwrap().0);
    assert_ne!(vault.0, derive_vault_address(&addr(5), &addr(2), &pid).unwrap().0);
    assert_ne!(
        derive_booth_address(&addr(4), &pid).unwrap().0,
        derive_booth_address(&addr(5), &pid).unwrap().0
    );
}

#[test]
fn initialize_plans_vaults_oracle_and_booth() {
    let b = booth_of(addr(1));
    let plan =
        initialize::process(&program_id(), &programs(), &initialize_accounts(&b), 5, 1, 1, 1)
            .unwrap();
    assert_eq!(plan.len(), 8);
    match plan[0] {
        Op::CreateAccount { payer, account, space, owner, signer } => {
            assert_eq!(payer, b.admin);
            assert_eq!(account, b.vault_a);
            assert_eq!(space, 165);
            assert_eq!(owner, programs().token_program);
            match signer {
                SignerSeeds::Vault { booth, mint, bump } => {
                    assert_eq!(booth, b.booth);
                    assert_eq!(mint, b.mint_a);
                    assert_eq!(bump, b.vault_a_bump);
                }
                _ => panic!("vault A is created under its own seeds"),
            }
        }
        _ => panic!("the first step creates vault A"),
    }
    assert!(matches!(plan[1], Op::InitializeTokenAccount { account, mint, owner, .. }
        if account == b.vault_a && mint == b.mint_a && owner == b.vault_a));
    assert!(matches!(plan[3], Op::InitializeTokenAccount { account, mint, .. }
        if account == b.vault_b && mint == b.mint_b));
    assert!(matches!(plan[4], Op::CreateAccount {
        account, space: 9, signer: SignerSeeds::Oracle { bump, .. }, .. }
        if account == b.oracle && bump == b.oracle_bump));
    assert!(matches!(plan[5], Op::CreateAccount {
        account, space: 9, signer: SignerSeeds::Booth { oracle, bump }, .. }
        if account == b.booth && oracle == b.oracle && bump == b.booth_bump));
    assert!(matches!(plan[6], Op::WriteBooth { account, record }
        if account == b.booth && record == ExchangeBoothAccount { fee: 1, decimals: 1 }));
    assert!(matches!(plan[7], Op::WriteOracle { account, record }
        if account == b.oracle && record == OracleAccount { exchange_rate: 5, decimals: 1 }));
}

#[test]
fn initialize_refusals() {
    let b = booth_of(addr(1));
    let pid = program_id();
    let p = programs();
    let mut accounts = initialize_accounts(&b);
    accounts[0].is_signer = false;
    assert_eq!(
        initialize::process(&pid, &p, &accounts, 5, 1, 1, 1).unwrap_err(),
        ProcessError::Booth(ExchangeBoothError::MissingRequiredSignature)
    );
    let mut accounts = initialize_accounts(&b);
    accounts[5].key = addr(60);
    assert_eq!(
        initialize::process(&pid, &p, &accounts, 5, 1, 1, 1).unwrap_err(),
        ProcessError::Booth(ExchangeBoothError::InvalidAccountAddress)
    );
    let mut accounts = initialize_accounts(&b);
    accounts[9].key = addr(61);
    assert_eq!(
        initialize::process(&pid, &p, &accounts, 5, 1, 1, 1).unwrap_err(),
        ProcessError::Booth(ExchangeBoothError::InvalidAccountAddress)
    );
    assert_eq!(
        initialize::process(&pid, &p, &initialize_accounts(&b), 5, 1, 11, 1).unwrap_err(),
        ProcessError::Booth(ExchangeBoothError::FeeOverMaxError)
    );
    let accounts = initialize_accounts(&b);
    assert_eq!(
        initialize::process(&pid, &p, &accounts[..9], 5, 1, 1, 1).unwrap_err(),
        ProcessError::NotEnoughAccountKeys
    );
}

#[test]
fn deposit_moves_both_amounts_into_the_vaults() {
    let b = booth_of(addr(1));
    let accounts = vec![
        account(b.admin, true, vec![]),
        account(b.vault_a, false, token_data(b.mint_a, b.vault_a, 0)),
        account(b.vault_b, false, token_data(b.mint_b, b.vault_b, 0)),
        account(programs().token_program, false, vec![]),
        account(addr(40), false, token_data(b.mint_a, b.admin, 500)),
        account(addr(41), false, token_data(b.mint_b, b.admin, 500)),
    ];
    let plan = deposit::process(&program_id(), &programs(), &accounts, 300, 200).unwrap();
    assert_eq!(plan.len(), 2);
    assert!(matches!(plan[0], Op::Transfer { source, destination, authority, amount: 300, signer: None }
        if source == addr(40) && destination == b.vault_a && authority == b.admin));
    assert!(matches!(plan[1], Op::Transfer { source, destination, authority, amount: 200, signer: None }
        if source == addr(41) && destination == b.vault_b && authority == b.admin));

    let mut mixed = accounts.clone();
    mixed[4].data = token_data(b.mint_b, b.admin, 500);
    assert_eq!(
        deposit::process(&program_id(), &programs(), &mixed, 300, 200).unwrap_err(),
        ProcessError::Booth(ExchangeBoothError::InvalidAccountAddress)
    );
    let mut uninitialized = accounts.clone();
    uninitialized[1].data[108] = 0;
    assert_eq!(
        deposit::process(&program_id(), &programs(), &uninitialized, 300, 200).unwrap_err(),
        ProcessError::UninitializedAccount
    );
    let mut short = accounts.clone();
    short[2].data.pop();
    assert_eq!(
        deposit::process(&program_id(), &programs(), &short, 300, 200).unwrap_err(),
        ProcessError::InvalidAccountData
    );
}

#[test]
fn withdraw_empties_both_vaults_under_their_seeds() {
    let b = booth_of(addr(1));
    let accounts = vec![
        account(b.admin, true, vec![]),
        account(b.vault_a, false, token_data(b.mint_a, b.vault_a, 70)),
        account(b.vault_b, false, token_data(b.mint_b, b.vault_b, 80)),
        account(addr(40), false, token_data(b.mint_a, b.admin, 0)),
        account(addr(41), false, token_data(b.mint_b, b.admin, 0)),
        account(programs().token_program, false, vec![]),
    ];
    let plan = withdraw::process(&program_id(), &programs(), &accounts).unwrap();
    assert_eq!(plan.len(), 2);
    assert!(matches!(plan[0], Op::Transfer {
        source, destination, authority, amount: 70,
        signer: Some(SignerSeeds::Vault { booth, mint, bump }) }
        if source == b.vault_a && destination == addr(40) && authority == b.vault_a
            && booth == b.booth && mint == b.mint_a && bump == b.vault_a_bump));
    assert!(matches!(plan[1], Op::Transfer {
        source, destination, amount: 80,
        signer: Some(SignerSeeds::Vault { mint, bump, .. }), .. }
        if source == b.vault_b && destination == addr(41) && mint == b.mint_b
            && bump == b.vault_b_bump));

    let mut unsigned = accounts.clone();
    unsigned[0].is_signer = false;
    assert_eq!(
        withdraw::process(&program_id(), &programs(), &unsigned).unwrap_err(),
        ProcessError::Booth(ExchangeBoothError::MissingRequiredSignature)
    );
    let mut other_admin = accounts.clone();
    other_admin[0].key = addr(9);
    assert_eq!(
        withdraw::process(&program_id(), &programs(), &other_admin).unwrap_err(),
        ProcessError::Booth(ExchangeBoothError::InvalidAccountAddress)
    );
}

#[test]
fn exchange_a_for_b_pays_at_the_rate_less_fee() {
    let b = booth_of(addr(1));
    let accounts = exchange_accounts(&b, true, 1000);
    let plan = exchange::process(&program_id(), &programs(), &accounts, 1000).unwrap();
    assert_eq!(plan.len(), 2);
    assert!(matches!(plan[0], Op::Transfer { source, destination, authority, amount: 1000, signer: None }
        if source == addr(52) && destination == b.vault_a && authority == addr(50)));
    assert!(matches!(plan[1], Op::Transfer {
        source, destination, authority, amount: 1800,
        signer: Some(SignerSeeds::Vault { booth, mint, bump }) }
        if source == b.vault_b && destination == addr(51) && authority == b.vault_b
            && booth == b.booth && mint == b.mint_b && bump == b.vault_b_bump));
}

#[test]
fn exchange_b_for_a_pays_at_the_rate_less_fee() {
    let b = booth_of(addr(1));
    let accounts = exchange_accounts(&b, false, 1800);
    let plan = exchange::process(&program_id(), &programs(), &accounts, 1800).unwrap();
    assert!(matches!(plan[0], Op::Transfer { destination, amount: 1800, .. }
        if destination == b.vault_b));
    assert!(matches!(plan[1], Op::Transfer { source, amount: 810, .. } if source == b.vault_a));
}

#[test]
fn exchange_with_unrelated_oracle_is_refused() {
    let b = booth_of(addr(1));
    let stranger = booth_of(addr(9));
    // The oracle, booth and vaults of another admin's booth, presented as the
    // first admin's.
    let mut accounts = exchange_accounts(&stranger, true, 1000);
    accounts[1].key = b.admin;
    assert_eq!(
        exchange::process(&program_id(), &programs(), &accounts, 1000).unwrap_err(),
        ProcessError::Booth(ExchangeBoothError::InvalidAccountAddress)
    );
    let mut accounts = exchange_accounts(&b, true, 1000);
    accounts[6].key = addr(70);
    assert_eq!(
        exchange::process(&program_id(), &programs(), &accounts, 1000).unwrap_err(),
        ProcessError::Booth(ExchangeBoothError::InvalidAccountAddress)
    );
}

#[test]
fn exchange_refusals() {
    let b = booth_of(addr(1));
    let mut unsigned = exchange_accounts(&b, true, 1000);
    unsigned[0].is_signer = false;
    assert_eq!(
        exchange::process(&program_id(), &programs(), &unsigned, 1000).unwrap_err(),
        ProcessError::Booth(ExchangeBoothError::MissingRequiredSignature)
    );
    let mut expensive = exchange_accounts(&b, true, 1000);
    expensive[7].data = ExchangeBoothAccount { fee: 10, decimals: 1 }.pack();
    assert_eq!(
        exchange::process(&program_id(), &programs(), &expensive, 1000).unwrap_err(),
        ProcessError::Booth(ExchangeBoothError::FeeOverMaxError)
    );
    let huge = exchange_accounts(&b, true, u64::MAX);
    assert_eq!(
        exchange::process(&program_id(), &programs(), &huge, u64::MAX).unwrap_err(),
        ProcessError::Booth(ExchangeBoothError::ConversionError)
    );
    let mut bad_oracle_data = exchange_accounts(&b, true, 1000);
    bad_oracle_data[6].data = vec![1, 2, 3];
    assert_eq!(
        exchange::process(&program_id(), &programs(), &bad_oracle_data, 1000).unwrap_err(),
        ProcessError::InvalidAccountData
    );
    let mut wrong_mint = exchange_accounts(&b, true, 1000);
    wrong_mint[9].key = addr(71);
    assert_eq!(
        exchange::process(&program_id(), &programs(), &wrong_mint, 1000).unwrap_err(),
        ProcessError::Booth(ExchangeBoothError::InvalidAccountAddress)
    );
}

#[test]
fn initialize_then_close_returns_everything_to_the_admin() {
    let b = booth_of(addr(1));
    assert!(initialize::process(&program_id(), &programs(), &initialize_accounts(&b), 5, 1, 1, 1)
        .is_ok());
    let accounts = close_accounts(&b, 0, 0);
    let plan = close::process(&program_id(), &programs(), &accounts).unwrap();
    assert_eq!(plan.len(), 5);
    assert!(matches!(plan[0], Op::Transfer { source, amount: 0, .. } if source == b.vault_a));
    assert!(matches!(plan[1], Op::Transfer { source, amount: 0, .. } if source == b.vault_b));
    assert!(matches!(plan[2], Op::CloseTokenAccount { account, destination, .. }
        if account == b.vault_a && destination == addr(40)));
    assert!(matches!(plan[3], Op::CloseTokenAccount { account, destination, .. }
        if account == b.vault_b && destination == addr(41)));
    assert!(matches!(plan[4], Op::CloseRecords { booth, oracle, recipient }
        if booth == b.booth && oracle == b.oracle && recipient == b.admin));
    assert_eq!(reclaimed_lamports(5_000, 900, 800), Ok(6_700));
}

#[test]
fn close_moves_vault_balances_and_checks_accounts() {
    let b = booth_of(addr(1));
    let plan = close::process(&program_id(), &programs(), &close_accounts(&b, 12, 34)).unwrap();
    assert!(matches!(plan[0], Op::Transfer { amount: 12, destination, .. } if destination == addr(40)));
    assert!(matches!(plan[1], Op::Transfer { amount: 34, destination, .. } if destination == addr(41)));
    let mut wrong_oracle = close_accounts(&b, 0, 0);
    wrong_oracle[8].key = booth_of(addr(9)).oracle;
    assert_eq!(
        close::process(&program_id(), &programs(), &wrong_oracle).unwrap_err(),
        ProcessError::Booth(ExchangeBoothError::InvalidAccountAddress)
    );
    let mut unsigned = close_accounts(&b, 0, 0);
    unsigned[0].is_signer = false;
    assert_eq!(
        close::process(&program_id(), &programs(), &unsigned).unwrap_err(),
        ProcessError::Booth(ExchangeBoothError::MissingRequiredSignature)
    );
}

#[test]
fn reclaiming_beyond_sixty_four_bits_is_a_compute_error() {
    assert_eq!(reclaimed_lamports(u64::MAX, 1, 0), Err(ExchangeBoothError::ComputeError));
    assert_eq!(reclaimed_lamports(u64::MAX - 1, 0, 2), Err(ExchangeBoothError::ComputeError));
    assert_eq!(reclaimed_lamports(u64::MAX - 3, 1, 2), Ok(u64::MAX));
}

#[test]
fn instructions_are_dispatched_to_their_handlers() {
    let b = booth_of(addr(1));
    let accounts = close_accounts(&b, 3, 4);
    assert_eq!(
        process_instruction(&program_id(), &programs(), &accounts, &[9]).unwrap_err(),
        ProcessError::InvalidArgument
    );
    let plan = process_instruction(&program_id(), &programs(), &accounts, &[2]).unwrap();
    assert_eq!(plan.len(), 5);
    let init = borsh::to_vec(&(0u8, 5u64, 1u8, 1u64, 1u8)).unwrap();
    let plan = process_instruction(&program_id(), &programs(), &initialize_accounts(&b), &init)
        .unwrap();
    assert_eq!(plan.len(), 8);
}

#[test]
fn exchange_reads_each_assets_decimals_from_its_mint() {
    let b = booth_of(addr(1));
    // Asset A has two decimals, asset B none: 100.00 A at rate 0.5 less 10%
    // buys 180 B.
    let mut accounts = exchange_accounts(&b, true, 10_000);
    accounts[8].data = mint_data(2);
    accounts[9].data = mint_data(0);
    let plan = exchange::process(&program_id(), &programs(), &accounts, 10_000).unwrap();
    assert!(matches!(plan[1], Op::Transfer { amount: 180, .. }));
    // And 180 B back buys 81.00 A.
    let mut accounts = exchange_accounts(&b, false, 180);
    accounts[8].data = mint_data(0);
    accounts[9].data = mint_data(2);
    let plan = exchange::process(&program_id(), &programs(), &accounts, 180).unwrap();
    assert!(matches!(plan[1], Op::Transfer { amount: 8_100, .. }));
}

#[test]
fn malformed_token_and_mint_data_are_refused() {
    let b = booth_of(addr(1));
    let mut bad_tag = exchange_accounts(&b, true, 1000);
    bad_tag[5].data[72] = 2;
    assert_eq!(
        exchange::process(&program_id(), &programs(), &bad_tag, 1000).unwrap_err(),
        ProcessError::InvalidAccountData
    );
    let mut bad_state = exchange_accounts(&b, true, 1000);
    bad_state[4].data[108] = 3;
    assert_eq!(
        exchange::process(&program_id(), &programs(), &bad_state, 1000).unwrap_err(),
        ProcessError::InvalidAccountData
    );
    let mut uninitialized_mint = exchange_accounts(&b, true, 1000);
    uninitialized_mint[8].data[45] = 0;
    assert_eq!(
        exchange::process(&program_id(), &programs(), &uninitialized_mint, 1000).unwrap_err(),
        ProcessError::UninitializedAccount
    );
    let mut bad_flag = exchange_accounts(&b, true, 1000);
    bad_flag[9].data[45] = 2;
    assert_eq!(
        exchange::process(&program_id(), &programs(), &bad_flag, 1000).unwrap_err(),
        ProcessError::InvalidAccountData
    );
}

#[test]
fn too_few_accounts_are_refused() {
    let b = booth_of(addr(1));
    let accounts = exchange_accounts(&b, true, 1000);
    assert_eq!(
        exchange::process(&program_id(), &programs(), &accounts[..10], 1000).unwrap_err(),
        ProcessError::NotEnoughAccountKeys
    );
    assert_eq!(
        process_instruction(&program_id(), &programs(), &accounts[..5], &[4]).unwrap_err(),
        ProcessError::NotEnoughAccountKeys
    );
    assert_eq!(
        close::process(&program_id(), &programs(), &accounts[..9]).unwrap_err(),
        ProcessError::NotEnoughAccountKeys
    );
}

#[test]
fn unknown_oracle_is_refused_whatever_it_holds() {
    let b = booth_of(addr(1));
    let mut accounts = exchange_accounts(&b, true, 1000);
    accounts[6].key = addr(70);
    accounts[6].data = vec![];
    assert_eq!(
        exchange::process(&program_id(), &programs(), &accounts, 1000).unwrap_err(),
        ProcessError::Booth(ExchangeBoothError::InvalidAccountAddress)
    );
}

#[test]
fn wrong_booth_or_mint_account_is_refused_before_it_is_read() {
    let b = booth_of(addr(1));
    let mut wrong_booth = exchange_accounts(&b, true, 1000);
    wrong_booth[7].key = addr(72);
    wrong_booth[7].data = vec![];
    assert_eq!(
        exchange::process(&program_id(), &programs(), &wrong_booth, 1000).unwrap_err(),
        ProcessError::Booth(ExchangeBoothError::InvalidAccountAddress)
    );
    let mut wrong_mint = exchange_accounts(&b, true, 1000);
    wrong_mint[8].key = addr(73);
    wrong_mint[8].data = vec![1, 2, 3];
    assert_eq!(
        exchange::process(&program_id(), &programs(), &wrong_mint, 1000).unwrap_err(),
        ProcessError::Booth(ExchangeBoothError::InvalidAccountAddress)
    );
}
