use vstd::prelude::*;
use crate::authority::{custody_seeds, DelegatedAuthority};
use crate::circle::state::{BurnMessage, TokenMessenger};
use crate::effects::{BurnEffects, TokenBurn};
use crate::error::ErrorCode;
use crate::state::{CrossChainFundSent, FundAccount, FundStatus, FundStatusChanged, Pubkey};

verus! {

/// What an outbound transfer works on.
#[derive(Clone, Copy, Debug, PartialEq, Eq)]
pub struct DepositForBurn {
    /// The caller.
    pub authority: Pubkey,
    /// The custody account the value is burned from.
    pub program_token_account: Pubkey,
    /// The ledger of the custody account; its authority alone may send.
    pub fund_account: FundAccount,
    /// The token that is burned.
    pub mint: Pubkey,
    /// The sequencer that numbers the burn records.
    pub token_messenger: TokenMessenger,
    /// The new record, stored under the messenger's present nonce.
    pub burn_message: BurnMessage,
    /// Bump of the custody account's address.
    pub program_token_account_bump: u8,
}

/// Why an outbound transfer of `amount` is refused, if it is.
pub open spec fn deposit_for_burn_error(ctx: DepositForBurn, amount: u64) -> Option<ErrorCode> {
    if ctx.fund_account.authority != ctx.authority {
        Some(ErrorCode::UnauthorizedAdmin)
    } else if amount > ctx.fund_account.idle_amount {
        Some(ErrorCode::InsufficientIdleFunds)
    } else if ctx.token_messenger.nonce == u64::MAX {
        Some(ErrorCode::MathOverflow)
    } else {
        ctx.fund_account.send_error(amount)
    }
}

/// The accounts after an outbound transfer that was not refused: the record is
/// filled in under the messenger's old nonce, the nonce has gone up by one, and
/// `amount` has moved from idle to sent.
pub open spec fn after_deposit_for_burn(
    ctx: DepositForBurn,
    amount: u64,
    destination_domain: u32,
    mint_recipient: [u8; 32],
    now: i64,
) -> DepositForBurn {
    DepositForBurn {
        burn_message: BurnMessage {
            amount,
            mint: ctx.mint,
            remote_domain: destination_domain,
            recipient: mint_recipient,
            nonce: ctx.token_messenger.nonce,
        },
        token_messenger: TokenMessenger {
            nonce: (ctx.token_messenger.nonce + 1) as u64,
            ..ctx.token_messenger
        },
        fund_account: ctx.fund_account.after_send(amount, now),
        ..ctx
    }
}

/// Sends `amount` of the idle value to `mint_recipient` on the chain
/// `destination_domain`, at time `now`.
///
/// Refused with `UnauthorizedAdmin` unless the caller is the ledger's
/// authority, with `InsufficientIdleFunds` when `amount` exceeds the idle
/// balance, and with `MathOverflow` when the messenger's nonce or the sent
/// total would leave the 64-bit range; the accounts then stay as they are.
/// Otherwise the burn record is written under the messenger's nonce, the nonce
/// goes up by one, `amount` moves from idle to sent, and the result names the
/// burn to make under the custody account's own authority and the
/// notifications to send once it has succeeded. If the burn is refused, the
/// caller has to drop the changed accounts, the record among them.
pub fn deposit_for_burn(
    ctx: &mut DepositForBurn,
    amount: u64,
    destination_domain: u32,
    mint_recipient: [u8; 32],
    now: i64,
) -> (done: Result<BurnEffects, ErrorCode>)
    ensures
        match done {
            Ok(effects) => {
                &&& deposit_for_burn_error(*old(ctx), amount) is None
                &&& *final(ctx) == after_deposit_for_burn(
                    *old(ctx),
                    amount,
                    destination_domain,
                    mint_recipient,
                    now,
                )
                &&& effects.burn.amount == amount
                &&& effects.burn.mint == old(ctx).mint
                &&& effects.burn.from == old(ctx).program_token_account
                &&& effects.burn.signer@ == custody_seeds(
                    old(ctx).mint,
                    old(ctx).program_token_account_bump,
                )
                &&& effects.sent_event == (CrossChainFundSent {
                    amount,
                    destination_chain: destination_domain,
                    recipient: mint_recipient,
                    timestamp: now,
                })
                &&& effects.fund_event == (FundStatusChanged {
                    amount,
                    from_status: FundStatus::Idle,
                    to_status: FundStatus::Sent,
                    token_account: old(ctx).program_token_account,
                    timestamp: now,
                })
            },
            Err(e) => deposit_for_burn_error(*old(ctx), amount) == Some(e) && *final(ctx) == *old(
                ctx,
            ),
        },
{
    if ctx.fund_account.authority != ctx.authority {
        return Err(ErrorCode::UnauthorizedAdmin);
    }
    if ctx.fund_account.idle_amount < amount {
        return Err(ErrorCode::InsufficientIdleFunds);
    }
    // The messenger moves on only once the ledger has accepted the transfer.
    let mut messenger = ctx.token_messenger;
    let nonce: u64 = match messenger.next_nonce() {
        Ok(v) => v,
        Err(e) => {
            return Err(e);
        },
    };
    match ctx.fund_account.debit_idle_for_send(amount, now) {
        Ok(()) => {},
        Err(e) => {
            return Err(e);
        },
    }
    ctx.burn_message = BurnMessage {
        amount,
        mint: ctx.mint,
        remote_domain: destination_domain,
        recipient: mint_recipient,
        nonce,
    };
    ctx.token_messenger = messenger;
    Ok(
        BurnEffects {
            burn: TokenBurn {
                amount,
                mint: ctx.mint,
                from: ctx.program_token_account,
                signer: DelegatedAuthority::for_custody(&ctx.mint, ctx.program_token_account_bump),
            },
            sent_event: CrossChainFundSent {
                amount,
                destination_chain: destination_domain,
                recipient: mint_recipient,
                timestamp: now,
            },
            fund_event: FundStatusChanged {
                amount,
                from_status: FundStatus::Idle,
                to_status: FundStatus::Sent,
                token_account: ctx.program_token_account,
                timestamp: now,
            },
        },
    )
}

/// Two transfers in a row on one messenger, neither refused, number their
/// records with the nonce before the first and that nonce plus one: the second
/// is strictly greater, and no nonce is given out twice. The second transfer
/// works on the ledger and the messenger as the first left them, with a new
/// record and whatever caller, amount and destination.
pub proof fn nonces_strictly_increase(
    first: DepositForBurn,
    amount1: u64,
    domain1: u32,
    recipient1: [u8; 32],
    now1: i64,
    second: DepositForBurn,
    amount2: u64,
    domain2: u32,
    recipient2: [u8; 32],
    now2: i64,
)
    requires
        deposit_for_burn_error(first, amount1) is None,
        second.token_messenger == after_deposit_for_burn(
            first,
            amount1,
            domain1,
            recipient1,
            now1,
        ).token_messenger,
        deposit_for_burn_error(second, amount2) is None,
    ensures
        ({
            let one = after_deposit_for_burn(first, amount1, domain1, recipient1, now1);
            let two = after_deposit_for_burn(second, amount2, domain2, recipient2, now2);
            &&& one.burn_message.nonce == first.token_messenger.nonce
            &&& two.burn_message.nonce == first.token_messenger.nonce + 1
            &&& one.burn_message.nonce < two.burn_message.nonce
            &&& two.token_messenger.nonce == first.token_messenger.nonce + 2
        }),
{
}

} // verus!
