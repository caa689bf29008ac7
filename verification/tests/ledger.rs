use cpay::error::ErrorCode;
use cpay::history::Transition;
use cpay::state::{FundAccount, Pubkey};

fn ledger(idle: u64, staked: u64, sent: u64, received: u64) -> FundAccount {
    FundAccount {
        idle_amount: idle,
        staked_amount: staked,
        sent_amount: sent,
        total_received_amount: received,
        last_update_time: 0,
        authority: Pubkey::new_from_array([7u8; 32]),
    }
}

#[test]
fn stake_moves_idle_to_staked() {
    let mut l = ledger(1000, 50, 3, 9);
    assert_eq!(l.debit_idle_for_stake(400, 77), Ok(()));
    assert_eq!(l.idle_amount, 600);
    assert_eq!(l.staked_amount, 450);
    assert_eq!(l.sent_amount, 3);
    assert_eq!(l.total_received_amount, 9);
    assert_eq!(l.last_update_time, 77);
    assert_eq!(l.authority, Pubkey::new_from_array([7u8; 32]));
}

#[test]
fn stake_of_whole_idle_balance_is_accepted() {
    let mut l = ledger(1000, 0, 0, 0);
    assert_eq!(l.debit_idle_for_stake(1000, 1), Ok(()));
    assert_eq!((l.idle_amount, l.staked_amount), (0, 1000));
}

#[test]
fn stake_beyond_idle_is_refused_and_changes_nothing() {
    let mut l = ledger(1000, 50, 3, 9);
    let before = l;
    assert_eq!(l.debit_idle_for_stake(1001, 77), Err(ErrorCode::InsufficientIdleFunds));
    assert_eq!(l, before);
}

#[test]
fn stake_overflowing_staked_is_refused_and_changes_nothing() {
    let mut l = ledger(10, u64::MAX - 5, 0, 0);
    let before = l;
    assert_eq!(l.debit_idle_for_stake(6, 77), Err(ErrorCode::MathOverflow));
    assert_eq!(l, before);
    assert_eq!(l.debit_idle_for_stake(5, 78), Ok(()));
    assert_eq!(l.staked_amount, u64::MAX);
    assert_eq!(l.idle_amount, 5);
}

#[test]
fn send_moves_idle_to_sent() {
    let mut l = ledger(600, 400, 10, 0);
    assert_eq!(l.debit_idle_for_send(600, -5), Ok(()));
    assert_eq!(l.idle_amount, 0);
    assert_eq!(l.staked_amount, 400);
    assert_eq!(l.sent_amount, 610);
    assert_eq!(l.last_update_time, -5);
}

#[test]
fn send_beyond_idle_is_refused_and_changes_nothing() {
    let mut l = ledger(600, 400, 10, 0);
    let before = l;
    assert_eq!(l.debit_idle_for_send(601, 1), Err(ErrorCode::InsufficientIdleFunds));
    assert_eq!(l, before);
}

#[test]
fn send_overflowing_sent_is_refused_and_changes_nothing() {
    let mut l = ledger(2, 0, u64::MAX - 1, 0);
    let before = l;
    assert_eq!(l.debit_idle_for_send(2, 1), Err(ErrorCode::MathOverflow));
    assert_eq!(l, before);
}

#[test]
fn unstake_moves_staked_to_idle() {
    let mut l = ledger(600, 400, 10, 0);
    assert_eq!(l.reverse_stake(150, 33), Ok(()));
    assert_eq!(l.idle_amount, 750);
    assert_eq!(l.staked_amount, 250);
    assert_eq!(l.sent_amount, 10);
    assert_eq!(l.last_update_time, 33);
}

#[test]
fn unstake_beyond_staked_is_refused_and_changes_nothing() {
    let mut l = ledger(600, 400, 10, 0);
    let before = l;
    assert_eq!(l.reverse_stake(401, 33), Err(ErrorCode::MathOverflow));
    assert_eq!(l, before);
}

#[test]
fn unstake_overflowing_idle_is_refused_and_changes_nothing() {
    let mut l = ledger(u64::MAX, 1, 0, 0);
    let before = l;
    assert_eq!(l.reverse_stake(1, 33), Err(ErrorCode::MathOverflow));
    assert_eq!(l, before);
}

#[test]
fn receive_adds_to_received_total_only() {
    let mut l = ledger(600, 400, 10, 5);
    l.last_update_time = 12;
    assert_eq!(l.receive_inbound(95), Ok(()));
    assert_eq!(l.total_received_amount, 100);
    assert_eq!(l.idle_amount, 600);
    assert_eq!(l.staked_amount, 400);
    assert_eq!(l.sent_amount, 10);
    assert_eq!(l.last_update_time, 12);
}

#[test]
fn receive_overflowing_total_is_refused_and_changes_nothing() {
    let mut l = ledger(0, 0, 0, u64::MAX);
    let before = l;
    assert_eq!(l.receive_inbound(1), Err(ErrorCode::MathOverflow));
    assert_eq!(l, before);
    assert_eq!(l.receive_inbound(0), Ok(()));
    assert_eq!(l, before);
}

#[test]
fn apply_asks_the_named_step() {
    let mut l = ledger(1000, 0, 0, 0);
    assert_eq!(l.apply(Transition::Stake { amount: 400, now: 1 }), Ok(()));
    assert_eq!(l.apply(Transition::Send { amount: 700, now: 2 }), Err(ErrorCode::InsufficientIdleFunds));
    assert_eq!(l.apply(Transition::Send { amount: 600, now: 3 }), Ok(()));
    assert_eq!(l.apply(Transition::Unstake { amount: 401, now: 4 }), Err(ErrorCode::MathOverflow));
    assert_eq!(l.apply(Transition::Unstake { amount: 100, now: 5 }), Ok(()));
    assert_eq!(l.apply(Transition::Receive { amount: 8 }), Ok(()));
    assert_eq!(l.idle_amount, 100);
    assert_eq!(l.staked_amount, 300);
    assert_eq!(l.sent_amount, 600);
    assert_eq!(l.total_received_amount, 8);
    assert_eq!(l.last_update_time, 5);
}

#[test]
fn a_history_of_steps_conserves_value() {
    let mut l = ledger(1000, 200, 30, 0);
    let steps = vec![
        Transition::Stake { amount: 400, now: 1 },
        Transition::Stake { amount: 5000, now: 2 },
        Transition::Send { amount: 250, now: 3 },
        Transition::Receive { amount: 77 },
        Transition::Unstake { amount: 600, now: 4 },
        Transition::Unstake { amount: 1, now: 5 },
        Transition::Send { amount: 950, now: 6 },
        Transition::Send { amount: 1, now: 7 },
    ];
    let accepted = l.apply_all(&steps);
    assert_eq!(accepted, 5);
    assert_eq!(ledger(1, 0, 0, 0).apply_all(&steps), 2);
    assert_eq!(l.idle_amount, 0);
    assert_eq!(l.staked_amount, 0);
    assert_eq!(l.sent_amount, 1230);
    assert_eq!(l.total_received_amount, 77);
    assert_eq!(l.last_update_time, 6);
    assert_eq!(l.idle_amount + l.staked_amount + l.sent_amount, 1230);
}

#[test]
fn an_empty_history_changes_nothing() {
    let mut l = ledger(1, 2, 3, 4);
    let before = l;
    assert_eq!(l.apply_all(&Vec::new()), 0);
    assert_eq!(l, before);
}

#[test]
fn stored_record_lengths() {
    assert_eq!(FundAccount::LEN, 80);
    assert_eq!(cpay::instructions::GlobalState::LEN, 89);
}
