use vstd::prelude::*;
use crate::authority::{vault_seeds, DelegatedAuthority};
use crate::effects::{VaultWithdrawal, WithdrawEffects};
use crate::error::ErrorCode;
use crate::instructions::initialize::GlobalState;
use crate::state::{FundAccount, FundStatus, FundStatusChanged, Pubkey, StakeStatusChanged};

verus! {

/// What an unstake works on.
#[derive(Clone, Copy, Debug, PartialEq, Eq)]
pub struct Withdraw {
    /// The configuration record, whose administrator alone may unstake.
    pub global_state: GlobalState,
    /// The ledger of the custody account.
    pub fund_account: FundAccount,
    /// The token account the value comes back to.
    pub user_token_account: Pubkey,
    /// The depositor record that the vault keeps for this program.
    pub vault_depositor: Pubkey,
    /// The position that the depositor record shows; the vault alone decides it.
    pub vault_shares: u128,
    /// The caller.
    pub payer: Pubkey,
    /// Bump of the configuration record's address.
    pub global_state_bump: u8,
}

/// Why an unstake is refused, if it is.
pub open spec fn withdraw_error(ctx: Withdraw) -> Option<ErrorCode> {
    if ctx.global_state.admin != ctx.payer {
        Some(ErrorCode::UnauthorizedAdmin)
    } else if ctx.vault_shares > u64::MAX {
        Some(ErrorCode::MathOverflow)
    } else {
        ctx.fund_account.unstake_error(ctx.vault_shares as u64)
    }
}

/// The accounts after an unstake at time `now` that was not refused.
pub open spec fn after_withdraw(ctx: Withdraw, now: i64) -> Withdraw {
    Withdraw { fund_account: ctx.fund_account.after_unstake(ctx.vault_shares as u64, now), ..ctx }
}

/// Takes the whole vault position back into the idle value at time `now`.
///
/// Refused with `UnauthorizedAdmin` unless the caller is the administrator,
/// and with `MathOverflow` when the position does not fit in 64 bits, when it
/// exceeds the staked balance of the ledger (ledger and vault disagree), or
/// when the idle balance would leave the 64-bit range; the accounts then stay
/// as they are. Otherwise the position moves from staked to idle, and the
/// result names the vault withdrawal to make under the program's own authority
/// and the notifications to send once it has succeeded. If the vault refuses
/// the withdrawal, the caller has to drop the changed accounts.
pub fn withdraw(ctx: &mut Withdraw, now: i64) -> (done: Result<WithdrawEffects, ErrorCode>)
    ensures
        match done {
            Ok(effects) => {
                &&& withdraw_error(*old(ctx)) is None
                &&& *final(ctx) == after_withdraw(*old(ctx), now)
                &&& effects.vault_call.amount == old(ctx).vault_shares
                &&& effects.vault_call.signer@ == vault_seeds(old(ctx).global_state_bump)
                &&& effects.stake_event == (StakeStatusChanged {
                    amount: effects.vault_call.amount,
                    is_stake: false,
                    stake_account: old(ctx).vault_depositor,
                    timestamp: now,
                })
                &&& effects.fund_event == (FundStatusChanged {
                    amount: effects.vault_call.amount,
                    from_status: FundStatus::Staked,
                    to_status: FundStatus::Idle,
                    token_account: old(ctx).user_token_account,
                    timestamp: now,
                })
            },
            Err(e) => withdraw_error(*old(ctx)) == Some(e) && *final(ctx) == *old(ctx),
        },
{
    match ctx.global_state.authorize(&ctx.payer) {
        Ok(()) => {},
        Err(e) => {
            return Err(e);
        },
    }
    let amount: u64 = match u64::try_from(ctx.vault_shares) {
        Ok(v) => v,
        Err(_) => {
            return Err(ErrorCode::MathOverflow);
        },
    };
    match ctx.fund_account.reverse_stake(amount, now) {
        Ok(()) => {},
        Err(e) => {
            return Err(e);
        },
    }
    Ok(
        WithdrawEffects {
            vault_call: VaultWithdrawal {
                amount,
                signer: DelegatedAuthority::for_vault(ctx.global_state_bump),
            },
            stake_event: StakeStatusChanged {
                amount,
                is_stake: false,
                stake_account: ctx.vault_depositor,
                timestamp: now,
            },
            fund_event: FundStatusChanged {
                amount,
                from_status: FundStatus::Staked,
                to_status: FundStatus::Idle,
                token_account: ctx.user_token_account,
                timestamp: now,
            },
        },
    )
}

/// An unstake of an empty vault position, as after a first unstake, is not
/// refused and moves nothing: all four counters of the ledger stay, and only
/// its time is set.
pub proof fn withdraw_of_nothing_moves_nothing(ctx: Withdraw, now: i64)
    requires
        ctx.global_state.admin == ctx.payer,
        ctx.vault_shares == 0,
    ensures
        withdraw_error(ctx) is None,
        after_withdraw(ctx, now).fund_account == (FundAccount {
            last_update_time: now,
            ..ctx.fund_account
        }),
{
}

} // verus!
