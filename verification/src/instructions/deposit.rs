use vstd::prelude::*;
use crate::authority::{vault_seeds, DelegatedAuthority};
use crate::effects::{DepositEffects, VaultDeposit};
use crate::error::ErrorCode;
use crate::instructions::initialize::GlobalState;
use crate::state::{FundAccount, FundStatus, FundStatusChanged, Pubkey, StakeStatusChanged};

verus! {

/// What a stake works on.
#[derive(Clone, Copy, Debug, PartialEq, Eq)]
pub struct Deposit {
    /// The configuration record, whose administrator alone may stake.
    pub global_state: GlobalState,
    /// The ledger of the custody account.
    pub fund_account: FundAccount,
    /// The custody account the value leaves.
    pub program_token_account: Pubkey,
    /// The depositor record that the vault keeps for this program.
    pub vault_depositor: Pubkey,
    /// The caller.
    pub payer: Pubkey,
    /// Bump of the configuration record's address.
    pub global_state_bump: u8,
}

/// Why a stake of `amount` is refused, if it is.
pub open spec fn deposit_error(ctx: Deposit, amount: u64) -> Option<ErrorCode> {
    if ctx.global_state.admin != ctx.payer {
        Some(ErrorCode::UnauthorizedAdmin)
    } else {
        ctx.fund_account.stake_error(amount)
    }
}

/// The accounts after a stake of `amount` at time `now` that was not refused.
pub open spec fn after_deposit(ctx: Deposit, amount: u64, now: i64) -> Deposit {
    Deposit { fund_account: ctx.fund_account.after_stake(amount, now), ..ctx }
}

/// Stakes `amount` of the idle value at time `now`.
///
/// Refused with `UnauthorizedAdmin` unless the caller is the administrator,
/// with `InsufficientIdleFunds` when `amount` exceeds the idle balance, and
/// with `MathOverflow` when the staked balance would leave the 64-bit range;
/// the accounts then stay as they are. Otherwise `amount` moves from idle to
/// staked, and the result names the vault deposit to make under the program's
/// own authority and the notifications to send once it has succeeded. If the
/// vault refuses the deposit, the caller has to drop the changed accounts.
pub fn deposit(ctx: &mut Deposit, amount: u64, now: i64) -> (done: Result<
    DepositEffects,
    ErrorCode,
>)
    ensures
        match done {
            Ok(effects) => {
                &&& deposit_error(*old(ctx), amount) is None
                &&& *final(ctx) == after_deposit(*old(ctx), amount, now)
                &&& effects.vault_call.amount == amount
                &&& effects.vault_call.signer@ == vault_seeds(old(ctx).global_state_bump)
                &&& effects.stake_event == (StakeStatusChanged {
                    amount,
                    is_stake: true,
                    stake_account: old(ctx).vault_depositor,
                    timestamp: now,
                })
                &&& effects.fund_event == (FundStatusChanged {
                    amount,
                    from_status: FundStatus::Idle,
                    to_status: FundStatus::Staked,
                    token_account: old(ctx).program_token_account,
                    timestamp: now,
                })
            },
            Err(e) => deposit_error(*old(ctx), amount) == Some(e) && *final(ctx) == *old(ctx),
        },
{
    match ctx.global_state.authorize(&ctx.payer) {
        Ok(()) => {},
        Err(e) => {
            return Err(e);
        },
    }
    match ctx.fund_account.debit_idle_for_stake(amount, now) {
        Ok(()) => {},
        Err(e) => {
            return Err(e);
        },
    }
    Ok(
        DepositEffects {
            vault_call: VaultDeposit {
                amount,
                signer: DelegatedAuthority::for_vault(ctx.global_state_bump),
            },
            stake_event: StakeStatusChanged {
                amount,
                is_stake: true,
                stake_account: ctx.vault_depositor,
                timestamp: now,
            },
            fund_event: FundStatusChanged {
                amount,
                from_status: FundStatus::Idle,
                to_status: FundStatus::Staked,
                token_account: ctx.program_token_account,
                timestamp: now,
            },
        },
    )
}

} // verus!
