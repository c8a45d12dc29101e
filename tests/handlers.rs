use native_amm::accounts::{
    associated_token_address, mint_lp_signer_seeds, AccountInfo,
    AssociatedTokenAccount, MintInterface, ProgramAccount, ProgramIds, SignerAccount, TokenAccount,
};
use native_amm::error::AmmError;
use native_amm::instruction::SwapInstructionData;
use native_amm::processor::{
    Deposit, Initialize, PoolBalances, Swap, TokenOp, TokenOpKind, Withdraw, LP_DECIMALS,
};
use native_amm::state::Config;

const USER: [u8; 32] = [0x21; 32];
const MINT_LP: [u8; 32] = [0x22; 32];
const CONFIG: [u8; 32] = [0x23; 32];
const MINT_X: [u8; 32] = [0x31; 32];
const MINT_Y: [u8; 32] = [0x32; 32];

fn token_program() -> [u8; 32] {
    pinocchio_token::ID.to_bytes()
}

fn ids() -> ProgramIds {
    ProgramIds {
        program: [0x11; 32],
        system_program: pinocchio_system::ID.to_bytes(),
        associated_token_program: pinocchio_associated_token_account::ID.to_bytes(),
    }
}

fn account(address: [u8; 32], owner: [u8; 32], is_signer: bool, data_len: usize) -> AccountInfo {
    AccountInfo { address, owner, is_signer, data_len }
}

fn ata(wallet: &[u8; 32], mint: &[u8; 32]) -> AccountInfo {
    let address = associated_token_address(wallet, &token_program(), mint, &ids()).unwrap();
    account(address, token_program(), false, 165)
}

fn config(state: u8) -> Config {
    Config { state, seed: 42, authority: [0; 32], mint_x: MINT_X, mint_y: MINT_Y, fee: 30, config_bump: [255] }
}

/// user, mint_lp, vault_x, vault_y, user_x_ata, user_y_ata, user_lp_ata, config, token_program
fn liquidity_accounts() -> Vec<AccountInfo> {
    vec![
        account(USER, pinocchio_system::ID.to_bytes(), true, 0),
        account(MINT_LP, token_program(), false, 82),
        ata(&CONFIG, &MINT_X),
        ata(&CONFIG, &MINT_Y),
        ata(&USER, &MINT_X),
        ata(&USER, &MINT_Y),
        ata(&USER, &MINT_LP),
        account(CONFIG, ids().program, false, 108),
        account(token_program(), [0; 32], false, 0),
    ]
}

/// user, user_x_ata, user_y_ata, vault_x, vault_y, config, token_program
fn swap_accounts() -> Vec<AccountInfo> {
    let l = liquidity_accounts();
    vec![l[0], l[4], l[5], l[2], l[3], l[7], l[8]]
}

fn amounts(a: u64, b: u64, c: u64, expiration: i64) -> Vec<u8> {
    let mut v = Vec::new();
    for n in [a, b, c] {
        v.extend_from_slice(&n.to_le_bytes());
    }
    v.extend_from_slice(&expiration.to_le_bytes());
    v
}

fn swap_payload(is_x: bool, amount: u64, min: u64) -> Vec<u8> {
    let mut v = vec![is_x as u8];
    v.extend_from_slice(&amount.to_le_bytes());
    v.extend_from_slice(&min.to_le_bytes());
    v.extend_from_slice(&100i64.to_le_bytes());
    v
}

fn op(kind: TokenOpKind, source: usize, destination: usize, authority: usize, amount: u64, pool_signed: bool) -> TokenOp {
    TokenOp { kind, source, destination, authority, amount, pool_signed }
}

fn deposit(amount: u64, max_x: u64, max_y: u64, state: u8) -> Deposit {
    Deposit::parse(&amounts(amount, max_x, max_y, 100), &liquidity_accounts(), &config(state).to_bytes(), 100, &ids())
        .unwrap()
}

fn withdraw(amount: u64, min_x: u64, min_y: u64) -> Withdraw {
    Withdraw::parse(&amounts(amount, min_x, min_y, 100), &liquidity_accounts(), &config(1).to_bytes(), 100, &ids())
        .unwrap()
}

fn swap(is_x: bool, amount: u64, min: u64) -> Swap {
    Swap::parse(&swap_payload(is_x, amount, min), &swap_accounts(), &config(1).to_bytes(), 100, &ids()).unwrap()
}

fn balances(vault_x: u64, vault_y: u64, lp_supply: u64) -> PoolBalances {
    PoolBalances { vault_x, vault_y, lp_supply }
}

#[test]
fn associated_address_is_the_derived_one() {
    let derived = associated_token_address(&USER, &token_program(), &MINT_X, &ids()).unwrap();
    let (expected, _) = solana_address::Address::find_program_address(
        &[&USER, &token_program(), &MINT_X],
        &pinocchio_associated_token_account::ID,
    );
    assert_eq!(derived, expected.to_bytes());
    assert_ne!(derived, USER);
    assert_ne!(derived, associated_token_address(&USER, &token_program(), &MINT_Y, &ids()).unwrap());
}

#[test]
fn validators() {
    let sys = pinocchio_system::ID.to_bytes();
    assert_eq!(SignerAccount::check(&account(USER, sys, true, 0)), Ok(()));
    assert_eq!(SignerAccount::check(&account(USER, sys, false, 0)), Err(AmmError::Unauthorized));
    assert_eq!(MintInterface::check(&account(MINT_LP, token_program(), false, 82), &ids()), Ok(()));
    assert_eq!(MintInterface::check(&account(MINT_LP, token_program(), false, 81), &ids()), Err(AmmError::AccountMismatch));
    assert_eq!(MintInterface::check(&account(MINT_LP, sys, false, 82), &ids()), Err(AmmError::AccountMismatch));
    assert_eq!(TokenAccount::check(&account(USER, token_program(), false, 165), &ids()), Ok(()));
    assert_eq!(TokenAccount::check(&account(USER, token_program(), false, 82), &ids()), Err(AmmError::AccountMismatch));
    assert_eq!(ProgramAccount::check(&account(CONFIG, ids().program, false, 108), &ids()), Ok(()));
    assert_eq!(ProgramAccount::check(&account(CONFIG, token_program(), false, 108), &ids()), Err(AmmError::AccountMismatch));
    let l = liquidity_accounts();
    assert_eq!(AssociatedTokenAccount::check(&l[4], &l[0], &MINT_X, &l[8], &ids()), Ok(()));
    assert_eq!(AssociatedTokenAccount::check(&l[4], &l[0], &MINT_Y, &l[8], &ids()), Err(AmmError::AccountMismatch));
}

#[test]
fn pool_signer_seeds() {
    let seeds = config(1).signer_seeds();
    assert_eq!(seeds, vec![b"config".to_vec(), 42u64.to_le_bytes().to_vec(), MINT_X.to_vec(), MINT_Y.to_vec(), vec![255]]);
    let seeds = mint_lp_signer_seeds(&CONFIG, &[7]);
    assert_eq!(seeds, vec![b"mint_lp".to_vec(), CONFIG.to_vec(), vec![7]]);
}

#[test]
fn first_deposit_sets_price() {
    let d = deposit(1414, 1000, 2000, 1);
    let ops = d.process(&balances(0, 0, 0), &ids()).unwrap();
    assert_eq!(
        ops,
        vec![
            op(TokenOpKind::Transfer, 4, 2, 0, 1000, false),
            op(TokenOpKind::Transfer, 5, 3, 0, 2000, false),
            op(TokenOpKind::MintTo, 1, 6, 7, 1414, true),
        ]
    );
}

#[test]
fn later_deposit_pays_proportionally() {
    let ops = deposit(10, 10, 20, 1).process(&balances(1000, 2000, 1000), &ids()).unwrap();
    assert_eq!(ops[0].amount, 10);
    assert_eq!(ops[1].amount, 20);
    assert_eq!(ops[2].amount, 10);
}

#[test]
fn deposit_above_declared_bounds_is_refused() {
    let d = deposit(10, 9, 20, 1);
    assert_eq!(d.process(&balances(1000, 2000, 1000), &ids()), Err(AmmError::SlippageExceeded));
}

#[test]
fn deposit_into_uninitialized_pool() {
    let d = deposit(10, 10, 20, 0);
    assert_eq!(d.process(&balances(1000, 2000, 1000), &ids()), Err(AmmError::InvalidState));
}

#[test]
fn deposit_with_foreign_token_account() {
    let mut d = deposit(10, 10, 20, 1);
    d.accounts.user_x_ata.address = [0x77; 32];
    assert_eq!(d.process(&balances(1000, 2000, 1000), &ids()), Err(AmmError::AccountMismatch));
    let mut d = deposit(10, 10, 20, 1);
    d.accounts.vault_y = d.accounts.vault_x;
    assert_eq!(d.process(&balances(1000, 2000, 1000), &ids()), Err(AmmError::AccountMismatch));
}

#[test]
fn deposit_parse_errors() {
    let data = amounts(10, 10, 20, 100);
    let cfg = config(1).to_bytes();
    let mut accounts = liquidity_accounts();
    accounts[0].is_signer = false;
    assert_eq!(Deposit::parse(&data, &accounts, &cfg, 100, &ids()), Err(AmmError::Unauthorized));
    assert_eq!(Deposit::parse(&data, &liquidity_accounts()[..8], &cfg, 100, &ids()), Err(AmmError::MalformedInput));
    assert_eq!(Deposit::parse(&data, &liquidity_accounts(), &cfg, 101, &ids()), Err(AmmError::Expired));
    assert_eq!(Deposit::parse(&data, &liquidity_accounts(), &cfg[..100], 100, &ids()), Err(AmmError::AccountMismatch));
    let mut accounts = liquidity_accounts();
    accounts[7].owner = [0x12; 32];
    assert_eq!(Deposit::parse(&data, &accounts, &cfg, 100, &ids()), Err(AmmError::AccountMismatch));
    assert_eq!(
        Deposit::parse(&amounts(0, 10, 20, 100), &liquidity_accounts(), &cfg, 100, &ids()),
        Err(AmmError::MalformedInput)
    );
}

#[test]
fn withdraw_all_returns_reserves() {
    let ops = withdraw(500, 1, 1).process(&balances(1234, 5678, 500), &ids()).unwrap();
    assert_eq!(
        ops,
        vec![
            op(TokenOpKind::Transfer, 2, 4, 7, 1234, true),
            op(TokenOpKind::Transfer, 3, 5, 7, 5678, true),
            op(TokenOpKind::Burn, 6, 1, 0, 500, false),
        ]
    );
}

#[test]
fn withdraw_part() {
    let ops = withdraw(500, 1, 1).process(&balances(1000, 2000, 1000), &ids()).unwrap();
    assert_eq!((ops[0].amount, ops[1].amount, ops[2].amount), (500, 1000, 500));
}

#[test]
fn withdraw_errors() {
    assert_eq!(withdraw(500, 501, 1).process(&balances(1000, 2000, 1000), &ids()), Err(AmmError::SlippageExceeded));
    assert_eq!(withdraw(1001, 1, 1).process(&balances(1000, 2000, 1000), &ids()), Err(AmmError::ArithmeticFailure));
    let data = amounts(0, 1, 1, 100);
    assert_eq!(
        Withdraw::parse(&data, &liquidity_accounts(), &config(1).to_bytes(), 100, &ids()),
        Err(AmmError::MalformedInput)
    );
    let data = amounts(1, 1, 1, 99);
    assert_eq!(
        Withdraw::parse(&data, &liquidity_accounts(), &config(1).to_bytes(), 100, &ids()),
        Err(AmmError::Expired)
    );
}

#[test]
fn swap_handler_scenario() {
    let ops = swap(true, 100, 1).process(&balances(1000, 1000, 0), &ids()).unwrap();
    assert_eq!(
        ops,
        vec![op(TokenOpKind::Transfer, 1, 3, 0, 100, false), op(TokenOpKind::Transfer, 4, 2, 5, 91, true)]
    );
    let ops = swap(false, 100, 1).process(&balances(1000, 1000, 0), &ids()).unwrap();
    assert_eq!(
        ops,
        vec![op(TokenOpKind::Transfer, 2, 4, 0, 100, false), op(TokenOpKind::Transfer, 3, 1, 5, 91, true)]
    );
}

#[test]
fn swap_handler_errors() {
    assert_eq!(swap(true, 100, 92).process(&balances(1000, 1000, 0), &ids()), Err(AmmError::SlippageExceeded));
    assert_eq!(swap(true, 100, 1).process(&balances(0, 1000, 0), &ids()), Err(AmmError::ArithmeticFailure));
    let mut s = swap(true, 1, 1);
    s.instruction_data = SwapInstructionData { min: 0, ..s.instruction_data };
    assert_eq!(s.process(&balances(1_000_000, 1, 0), &ids()), Err(AmmError::MalformedInput));
    let mut accounts = swap_accounts();
    accounts[0].is_signer = false;
    assert_eq!(
        Swap::parse(&swap_payload(true, 1, 1), &accounts, &config(1).to_bytes(), 100, &ids()),
        Err(AmmError::Unauthorized)
    );
    assert_eq!(
        Swap::parse(&swap_payload(true, 0, 1), &swap_accounts(), &config(1).to_bytes(), 100, &ids()),
        Err(AmmError::MalformedInput)
    );
    let mut s = swap(true, 100, 1);
    s.config.state = 2;
    assert_eq!(s.process(&balances(1000, 1000, 0), &ids()), Err(AmmError::InvalidState));
}

fn initialize_payload(fee: u16) -> Vec<u8> {
    let mut v = Vec::new();
    v.extend_from_slice(&42u64.to_le_bytes());
    v.extend_from_slice(&fee.to_le_bytes());
    v.extend_from_slice(&MINT_X);
    v.extend_from_slice(&MINT_Y);
    v.push(255);
    v.push(254);
    v
}

fn initialize_accounts() -> Vec<AccountInfo> {
    let l = liquidity_accounts();
    vec![l[0], l[1], l[7], l[8], l[8]]
}

#[test]
fn initialize_builds_the_pool() {
    let i = Initialize::parse(&initialize_payload(30), &initialize_accounts()).unwrap();
    let plan = i.process().unwrap();
    assert_eq!(plan.config_data, config(1).to_bytes());
    assert_eq!(plan.config_seeds, config(1).signer_seeds());
    assert_eq!(plan.mint_lp_seeds, vec![b"mint_lp".to_vec(), CONFIG.to_vec(), vec![254]]);
    assert_eq!(plan.lp_decimals, LP_DECIMALS);
    assert_eq!(plan.mint_authority, 2);
    assert_eq!(plan.freeze_authority, Some(2));
    assert_eq!(initialize_accounts()[plan.mint_authority].address, CONFIG);
    assert_eq!(LP_DECIMALS, 6);
}

#[test]
fn initialize_errors() {
    let i = Initialize::parse(&initialize_payload(10_000), &initialize_accounts()).unwrap();
    assert!(matches!(i.process(), Err(AmmError::MalformedInput)));
    let mut accounts = initialize_accounts();
    accounts[0].is_signer = false;
    assert!(matches!(Initialize::parse(&initialize_payload(30), &accounts), Err(AmmError::Unauthorized)));
    assert!(matches!(
        Initialize::parse(&initialize_payload(30), &initialize_accounts()[..4]),
        Err(AmmError::MalformedInput)
    ));
    assert!(matches!(Initialize::parse(&[0u8; 75], &initialize_accounts()), Err(AmmError::MalformedInput)));
}
