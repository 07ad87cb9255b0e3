use vault_manager::add_sol;
use vault_manager::add_sol::AddSol;
use vault_manager::add_sol::AddSolEvent;
use vault_manager::errors::VaultError;
use vault_manager::initialize;
use vault_manager::initialize::Initialize;
use vault_manager::ping;
use vault_manager::ping::Ping;
use vault_manager::ping::PingEvent;
use vault_manager::state::InheritorShare;
use vault_manager::state::Mint;
use vault_manager::state::TokenAccount;
use vault_manager::state::TOKEN_PROGRAM_ID;
use vault_manager::state::VaultState;

const USER: u64 = 10;
const VAULT_PDA: u64 = 77;
const MINT_KEY: u64 = 5;
const BUMP: u8 = 250;

fn fresh_initialize_ctx(user_lamports: u64) -> Initialize {
    Initialize {
        user: USER,
        user_lamports,
        vault_state: None,
        vault_pda: VAULT_PDA,
        vault_pda_bump: BUMP,
        vault_pda_lamports: 0,
        lvsol_mint: Mint { key: MINT_KEY, owner_program: TOKEN_PROGRAM_ID, supply: 0 },
        user_lvsol_ata: TokenAccount {
            mint: MINT_KEY,
            owner: USER,
            amount: 0,
            delegate: None,
            delegated_amount: 0,
        },
    }
}

fn one_beneficiary(address: u64, bps: u64) -> Vec<InheritorShare> {
    vec![InheritorShare { address, amount: bps }]
}

#[test]
fn initialize_success() {
    let mut ctx = fresh_initialize_ctx(1_000);
    let r = initialize::handler(&mut ctx, 100, 5, 3_600, one_beneficiary(20, 10_000), 1_000);
    assert!(r.is_ok());
    assert_eq!(ctx.user_lamports, 900);
    assert_eq!(ctx.vault_pda_lamports, 100);
    assert_eq!(ctx.lvsol_mint.supply, 100);
    assert_eq!(ctx.user_lvsol_ata.amount, 100);
    assert_eq!(ctx.user_lvsol_ata.delegate, Some(VAULT_PDA));
    assert_eq!(ctx.user_lvsol_ata.delegated_amount, 100);
    let v = ctx.vault_state.expect("record persisted");
    assert_eq!(v.owner, USER);
    assert_eq!(v.vault_pda_bump, BUMP);
    assert_eq!(v.lvsol_mint, MINT_KEY);
    assert_eq!(v.locked_amount, 100);
    assert_eq!(v.reward_lamports, 5);
    assert_eq!(v.last_active_timestamp, 1_000);
    assert_eq!(v.inactivity_duration, 3_600);
    assert_eq!(v.inheritors, one_beneficiary(20, 10_000));
}

#[test]
fn initialize_already_initialized() {
    let mut ctx = fresh_initialize_ctx(1_000);
    let r = initialize::handler(&mut ctx, 100, 5, 3_600, one_beneficiary(20, 10_000), 1_000);
    assert!(r.is_ok());
    // The escrow and token accounts of a second attempt would be fresh
    // again; only the existing record matters for the rejection.
    let mut again = fresh_initialize_ctx(1_000);
    again.vault_state = ctx.vault_state.clone();
    let r2 = initialize::handler(&mut again, 50, 1, 60, one_beneficiary(21, 10_000), 2_000);
    assert_eq!(r2, Err(VaultError::AlreadyInitialized));
    assert_eq!(again.vault_state, ctx.vault_state);
    assert_eq!(again.user_lamports, 1_000);
    assert_eq!(again.vault_pda_lamports, 0);
    assert_eq!(again.lvsol_mint.supply, 0);
}

#[test]
fn initialize_invalid_mint() {
    let mut ctx = fresh_initialize_ctx(1_000);
    ctx.lvsol_mint.owner_program = TOKEN_PROGRAM_ID + 1;
    ctx.user_lvsol_ata.mint = ctx.lvsol_mint.key;
    let r = initialize::handler(&mut ctx, 100, 5, 3_600, one_beneficiary(20, 10_000), 1_000);
    assert_eq!(r, Err(VaultError::InvalidMint));
    assert_eq!(ctx.user_lamports, 1_000);
    assert!(ctx.vault_state.is_none());
}

#[test]
fn initialize_insufficient_funds() {
    let mut ctx = fresh_initialize_ctx(99);
    let r = initialize::handler(&mut ctx, 100, 5, 3_600, one_beneficiary(20, 10_000), 1_000);
    assert_eq!(r, Err(VaultError::InsufficientFunds));
    assert_eq!(ctx.user_lamports, 99);
    assert_eq!(ctx.vault_pda_lamports, 0);
    assert_eq!(ctx.lvsol_mint.supply, 0);
    assert!(ctx.vault_state.is_none());
}

#[test]
fn add_sol_success() {
    let mut ctx = AddSol {
        user: USER,
        user_lamports: 500,
        vault_pda: VAULT_PDA,
        vault_pda_lamports: 100,
    };
    let r = add_sol::handler(&mut ctx, 60, 1_234);
    assert_eq!(
        r,
        Ok(AddSolEvent { vault: VAULT_PDA, from: USER, amount: 60, timestamp: 1_234 })
    );
    assert_eq!(ctx.user_lamports, 440);
    assert_eq!(ctx.vault_pda_lamports, 160);
}

#[test]
fn add_sol_insufficient_funds() {
    let mut ctx = AddSol {
        user: USER,
        user_lamports: 59,
        vault_pda: VAULT_PDA,
        vault_pda_lamports: 100,
    };
    let r = add_sol::handler(&mut ctx, 60, 1_234);
    assert_eq!(r, Err(VaultError::InsufficientFunds));
    assert_eq!(ctx.user_lamports, 59);
    assert_eq!(ctx.vault_pda_lamports, 100);
}

fn sample_vault(last_active: i64) -> VaultState {
    VaultState {
        owner: USER,
        vault_pda_bump: BUMP,
        lvsol_mint: MINT_KEY,
        locked_amount: 100,
        reward_lamports: 5,
        last_active_timestamp: last_active,
        inactivity_duration: 3_600,
        inheritors: one_beneficiary(20, 10_000),
    }
}

#[test]
fn ping_updates_timestamp() {
    let mut ctx = Ping { owner: USER, vault_state: Some(sample_vault(1_000)) };
    let r = ping::handler(&mut ctx, 2_000);
    assert_eq!(r, Ok(PingEvent { owner: USER, timestamp: 2_000 }));
    let v = ctx.vault_state.expect("record kept");
    assert_eq!(v.last_active_timestamp, 2_000);
    let mut expected = sample_vault(1_000);
    expected.last_active_timestamp = 2_000;
    assert_eq!(v, expected);
}

#[test]
fn ping_repeated_equals_last_ping() {
    // Heartbeat is idempotent under repetition: pinging at t1 and again
    // at t2 leaves exactly the state of a single ping at t2, with the
    // timestamp strictly increased.
    let mut twice = Ping { owner: USER, vault_state: Some(sample_vault(1_000)) };
    assert!(ping::handler(&mut twice, 2_000).is_ok());
    let after_first = twice.vault_state.clone().unwrap().last_active_timestamp;
    assert!(ping::handler(&mut twice, 2_500).is_ok());

    let mut once = Ping { owner: USER, vault_state: Some(sample_vault(1_000)) };
    assert!(ping::handler(&mut once, 2_500).is_ok());

    assert_eq!(twice.vault_state, once.vault_state);
    assert!(after_first < twice.vault_state.unwrap().last_active_timestamp);
}

#[test]
fn ping_unauthorized_mutates_nothing() {
    let mut ctx = Ping { owner: USER + 1, vault_state: Some(sample_vault(1_000)) };
    let r = ping::handler(&mut ctx, 2_000);
    assert_eq!(r, Err(VaultError::Unauthorized));
    assert_eq!(ctx.vault_state, Some(sample_vault(1_000)));
}

#[test]
fn ping_record_not_found() {
    let mut ctx = Ping { owner: USER, vault_state: None };
    let r = ping::handler(&mut ctx, 2_000);
    assert_eq!(r, Err(VaultError::RecordNotFound));
    assert!(ctx.vault_state.is_none());
}
