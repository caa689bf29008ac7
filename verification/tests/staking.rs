use cpay::authority::DelegatedAuthority;
use cpay::error::ErrorCode;
use cpay::instructions::{deposit, initialize, withdraw, Deposit, GlobalState, Initialize, Withdraw};
use cpay::state::{FundAccount, FundStatus, FundStatusChanged, Pubkey, StakeStatusChanged};

fn key(b: u8) -> Pubkey {
    Pubkey::new_from_array([b; 32])
}

fn config(admin: Pubkey) -> GlobalState {
    GlobalState {
        initialized: true,
        admin,
        token_account: key(2),
        total_funds: 0,
        staked_funds: 0,
        idle_funds: 0,
    }
}

fn ledger(idle: u64, staked: u64) -> FundAccount {
    FundAccount {
        idle_amount: idle,
        staked_amount: staked,
        sent_amount: 0,
        total_received_amount: 0,
        last_update_time: 0,
        authority: key(1),
    }
}

fn stake_accounts(idle: u64, staked: u64, payer: Pubkey) -> Deposit {
    Deposit {
        global_state: config(key(1)),
        fund_account: ledger(idle, staked),
        program_token_account: key(2),
        vault_depositor: key(3),
        payer,
        global_state_bump: 254,
    }
}

fn unstake_accounts(idle: u64, staked: u64, shares: u128, payer: Pubkey) -> Withdraw {
    Withdraw {
        global_state: config(key(1)),
        fund_account: ledger(idle, staked),
        user_token_account: key(4),
        vault_depositor: key(3),
        vault_shares: shares,
        payer,
        global_state_bump: 253,
    }
}

#[test]
fn stake_400_of_1000() {
    let mut ctx = stake_accounts(1000, 0, key(1));
    let effects = deposit(&mut ctx, 400, 1_700_000_000).unwrap();
    assert_eq!(ctx.fund_account.idle_amount, 600);
    assert_eq!(ctx.fund_account.staked_amount, 400);
    assert_eq!(ctx.fund_account.sent_amount, 0);
    assert_eq!(ctx.fund_account.last_update_time, 1_700_000_000);
    assert_eq!(
        effects.fund_event,
        FundStatusChanged {
            amount: 400,
            from_status: FundStatus::Idle,
            to_status: FundStatus::Staked,
            token_account: key(2),
            timestamp: 1_700_000_000,
        }
    );
    assert_eq!(
        effects.stake_event,
        StakeStatusChanged {
            amount: 400,
            is_stake: true,
            stake_account: key(3),
            timestamp: 1_700_000_000,
        }
    );
    assert_eq!(effects.vault_call.amount, 400);
    assert_eq!(
        effects.vault_call.signer.seeds,
        vec![b"program_token_account".to_vec(), vec![254u8]]
    );
    assert_eq!(ctx.global_state, config(key(1)));
}

#[test]
fn stake_beyond_idle_fails_and_leaves_counters() {
    let mut ctx = stake_accounts(1000, 20, key(1));
    let before = ctx;
    assert_eq!(deposit(&mut ctx, 1001, 5), Err(ErrorCode::InsufficientIdleFunds));
    assert_eq!(ctx, before);
}

#[test]
fn stake_by_stranger_is_unauthorized() {
    let mut ctx = stake_accounts(1000, 20, key(9));
    let before = ctx;
    assert_eq!(deposit(&mut ctx, 10, 5), Err(ErrorCode::UnauthorizedAdmin));
    assert_eq!(ctx, before);
    // the caller is judged before the amount
    assert_eq!(deposit(&mut ctx, 5000, 5), Err(ErrorCode::UnauthorizedAdmin));
}

#[test]
fn stake_overflowing_staked_fails() {
    let mut ctx = stake_accounts(10, u64::MAX, key(1));
    let before = ctx;
    assert_eq!(deposit(&mut ctx, 1, 5), Err(ErrorCode::MathOverflow));
    assert_eq!(ctx, before);
}

#[test]
fn unstake_takes_whole_position() {
    let mut ctx = unstake_accounts(600, 400, 400, key(1));
    let effects = withdraw(&mut ctx, 99).unwrap();
    assert_eq!(ctx.fund_account.idle_amount, 1000);
    assert_eq!(ctx.fund_account.staked_amount, 0);
    assert_eq!(ctx.fund_account.last_update_time, 99);
    assert_eq!(effects.vault_call.amount, 400);
    assert_eq!(
        effects.vault_call.signer,
        DelegatedAuthority { seeds: vec![b"program_token_account".to_vec(), vec![253u8]] }
    );
    assert_eq!(
        effects.stake_event,
        StakeStatusChanged { amount: 400, is_stake: false, stake_account: key(3), timestamp: 99 }
    );
    assert_eq!(
        effects.fund_event,
        FundStatusChanged {
            amount: 400,
            from_status: FundStatus::Staked,
            to_status: FundStatus::Idle,
            token_account: key(4),
            timestamp: 99,
        }
    );
}

#[test]
fn unstake_of_smaller_position_leaves_rest_staked() {
    let mut ctx = unstake_accounts(0, 400, 150, key(1));
    assert!(withdraw(&mut ctx, 1).is_ok());
    assert_eq!(ctx.fund_account.idle_amount, 150);
    assert_eq!(ctx.fund_account.staked_amount, 250);
}

#[test]
fn second_unstake_of_empty_position_moves_nothing() {
    let mut ctx = unstake_accounts(600, 400, 400, key(1));
    assert!(withdraw(&mut ctx, 10).is_ok());
    // the vault now shows an empty position
    ctx.vault_shares = 0;
    let after_first = ctx.fund_account;
    let effects = withdraw(&mut ctx, 11).unwrap();
    assert_eq!(effects.vault_call.amount, 0);
    assert_eq!(effects.stake_event.amount, 0);
    assert_eq!(ctx.fund_account.idle_amount, after_first.idle_amount);
    assert_eq!(ctx.fund_account.staked_amount, after_first.staked_amount);
    assert_eq!(ctx.fund_account.sent_amount, after_first.sent_amount);
    assert_eq!(ctx.fund_account.total_received_amount, after_first.total_received_amount);
    assert_eq!(ctx.fund_account.last_update_time, 11);
}

#[test]
fn unstake_by_stranger_is_unauthorized() {
    let mut ctx = unstake_accounts(600, 400, 400, key(8));
    let before = ctx;
    assert_eq!(withdraw(&mut ctx, 1), Err(ErrorCode::UnauthorizedAdmin));
    assert_eq!(ctx, before);
}

#[test]
fn unstake_of_position_beyond_64_bits_overflows() {
    let mut ctx = unstake_accounts(0, u64::MAX, u64::MAX as u128 + 1, key(1));
    let before = ctx;
    assert_eq!(withdraw(&mut ctx, 1), Err(ErrorCode::MathOverflow));
    assert_eq!(ctx, before);
    ctx.vault_shares = u64::MAX as u128;
    assert!(withdraw(&mut ctx, 1).is_ok());
    assert_eq!(ctx.fund_account.idle_amount, u64::MAX);
    assert_eq!(ctx.fund_account.staked_amount, 0);
}

#[test]
fn unstake_of_position_beyond_ledger_overflows() {
    let mut ctx = unstake_accounts(600, 400, 401, key(1));
    let before = ctx;
    assert_eq!(withdraw(&mut ctx, 1), Err(ErrorCode::MathOverflow));
    assert_eq!(ctx, before);
}

#[test]
fn unstake_overflowing_idle_fails() {
    let mut ctx = unstake_accounts(u64::MAX - 1, 400, 2, key(1));
    let before = ctx;
    assert_eq!(withdraw(&mut ctx, 1), Err(ErrorCode::MathOverflow));
    assert_eq!(ctx, before);
}

#[test]
fn initialize_sets_admin_and_token_account() {
    let mut ctx = Initialize {
        global_state: GlobalState {
            initialized: false,
            admin: key(0),
            token_account: key(0),
            total_funds: 5,
            staked_funds: 6,
            idle_funds: 7,
        },
        program_token_account: key(2),
        payer: key(1),
    };
    assert_eq!(initialize(&mut ctx), Ok(()));
    assert_eq!(
        ctx.global_state,
        GlobalState {
            initialized: true,
            admin: key(1),
            token_account: key(2),
            total_funds: 0,
            staked_funds: 0,
            idle_funds: 0,
        }
    );
    assert_eq!(ctx.payer, key(1));
    assert_eq!(ctx.program_token_account, key(2));
}

#[test]
fn initialize_twice_fails_and_keeps_first() {
    let mut ctx = Initialize {
        global_state: GlobalState {
            initialized: false,
            admin: key(0),
            token_account: key(0),
            total_funds: 0,
            staked_funds: 0,
            idle_funds: 0,
        },
        program_token_account: key(2),
        payer: key(1),
    };
    assert_eq!(initialize(&mut ctx), Ok(()));
    let first = ctx.global_state;
    ctx.payer = key(5);
    ctx.program_token_account = key(6);
    assert_eq!(initialize(&mut ctx), Err(ErrorCode::RepeatedInit));
    assert_eq!(ctx.global_state, first);
    assert_eq!(ctx.global_state.admin, key(1));
}

#[test]
fn only_the_administrator_is_authorized() {
    let state = config(key(1));
    assert_eq!(state.authorize(&key(1)), Ok(()));
    assert_eq!(state.authorize(&key(2)), Err(ErrorCode::UnauthorizedAdmin));
}
