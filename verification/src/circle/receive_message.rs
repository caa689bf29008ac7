use vstd::prelude::*;
use crate::authority::{transmitter_seeds, DelegatedAuthority};
use crate::circle::state::MessageTransmitter;
use crate::effects::{MintEffects, TokenMint};
use crate::error::ErrorCode;
use crate::state::{FundAccount, Pubkey};

verus! {

/// What the receipt of an inbound message works on.
#[derive(Clone, Copy, Debug, PartialEq, Eq)]
pub struct ReceiveMessage {
    /// The caller, a relayer.
    pub authority: Pubkey,
    /// The inbound side of the bridge, which mints while it is not paused.
    pub message_transmitter: MessageTransmitter,
    /// The custody account the value is minted into.
    pub program_token_account: Pubkey,
    /// The ledger of the custody account.
    pub fund_account: FundAccount,
    /// The token that is minted.
    pub mint: Pubkey,
    /// Bump of the message transmitter's address.
    pub message_transmitter_bump: u8,
}

/// An attested message from another chain.
#[derive(Clone, Debug, PartialEq, Eq)]
pub struct MessageData {
    pub source_domain: u32,
    pub sender: [u8; 32],
    pub recipient: Pubkey,
    pub amount: u64,
    pub message_body: Vec<u8>,
}

/// Why an inbound message over `amount` with `signatures` attestation
/// signatures is refused, if it is.
pub open spec fn receive_message_error(ctx: ReceiveMessage, amount: u64, signatures: nat) -> Option<
    ErrorCode,
> {
    if ctx.message_transmitter.paused {
        Some(ErrorCode::TransmitterPaused)
    } else if signatures == 0 {
        Some(ErrorCode::InvalidSignatures)
    } else {
        ctx.fund_account.receive_error(amount)
    }
}

/// The accounts after an inbound message over `amount` that was not refused.
pub open spec fn after_receive_message(ctx: ReceiveMessage, amount: u64) -> ReceiveMessage {
    ReceiveMessage { fund_account: ctx.fund_account.after_receive(amount), ..ctx }
}

/// Takes in an attested message from another chain.
///
/// Refused with `TransmitterPaused` while the transmitter is paused, with
/// `InvalidSignatures` when no signature comes with the message, and with
/// `MathOverflow` when the received total would leave the 64-bit range; the
/// accounts then stay as they are and nothing is to be minted. Otherwise the
/// message's amount is added to the received total, and the result names the
/// mint into the custody account to make under the transmitter's authority. If
/// the mint is refused, the caller has to drop the changed accounts.
///
/// The signatures are counted, not checked against the message: whoever calls
/// this has to have checked them.
pub fn receive_message(
    ctx: &mut ReceiveMessage,
    message: MessageData,
    signatures: Vec<[u8; 65]>,
) -> (done: Result<MintEffects, ErrorCode>)
    ensures
        match done {
            Ok(effects) => {
                &&& receive_message_error(*old(ctx), message.amount, signatures@.len()) is None
                &&& *final(ctx) == after_receive_message(*old(ctx), message.amount)
                &&& effects.mint.amount == message.amount
                &&& effects.mint.mint == old(ctx).mint
                &&& effects.mint.to == old(ctx).program_token_account
                &&& effects.mint.signer@ == transmitter_seeds(old(ctx).message_transmitter_bump)
            },
            Err(e) => receive_message_error(*old(ctx), message.amount, signatures@.len()) == Some(
                e,
            ) && *final(ctx) == *old(ctx),
        },
{
    if ctx.message_transmitter.paused {
        return Err(ErrorCode::TransmitterPaused);
    }
    if signatures.len() == 0 {
        return Err(ErrorCode::InvalidSignatures);
    }
    match ctx.fund_account.receive_inbound(message.amount) {
        Ok(()) => {},
        Err(e) => {
            return Err(e);
        },
    }
    Ok(
        MintEffects {
            mint: TokenMint {
                amount: message.amount,
                mint: ctx.mint,
                to: ctx.program_token_account,
                signer: DelegatedAuthority::for_transmitter(ctx.message_transmitter_bump),
            },
        },
    )
}

} // verus!
