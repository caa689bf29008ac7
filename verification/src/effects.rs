use vstd::prelude::*;
use crate::authority::DelegatedAuthority;
use crate::state::{CrossChainFundSent, FundStatusChanged, Pubkey, StakeStatusChanged};

verus! {

/// A deposit of `amount` into the vault, to be made under `signer`.
#[derive(Clone, Debug, PartialEq, Eq)]
pub struct VaultDeposit {
    pub amount: u64,
    pub signer: DelegatedAuthority,
}

/// A withdrawal of the whole vault position, which stands at `amount`, to be
/// made under `signer`.
#[derive(Clone, Debug, PartialEq, Eq)]
pub struct VaultWithdrawal {
    pub amount: u64,
    pub signer: DelegatedAuthority,
}

/// A burn of `amount` of `mint` out of the custody account `from`, to be made
/// under `signer`, the custody account's own authority.
#[derive(Clone, Debug, PartialEq, Eq)]
pub struct TokenBurn {
    pub amount: u64,
    pub mint: Pubkey,
    pub from: Pubkey,
    pub signer: DelegatedAuthority,
}

/// A mint of `amount` of `mint` into the custody account `to`, to be made
/// under `signer`, the message transmitter's authority.
#[derive(Clone, Debug, PartialEq, Eq)]
pub struct TokenMint {
    pub amount: u64,
    pub mint: Pubkey,
    pub to: Pubkey,
    pub signer: DelegatedAuthority,
}

/// What a stake asks of the outside: the vault call, then the two notifications.
#[derive(Clone, Debug, PartialEq, Eq)]
pub struct DepositEffects {
    pub vault_call: VaultDeposit,
    pub stake_event: StakeStatusChanged,
    pub fund_event: FundStatusChanged,
}

/// What an unstake asks of the outside: the vault call, then the two notifications.
#[derive(Clone, Debug, PartialEq, Eq)]
pub struct WithdrawEffects {
    pub vault_call: VaultWithdrawal,
    pub stake_event: StakeStatusChanged,
    pub fund_event: FundStatusChanged,
}

/// What an outbound transfer asks of the outside: the burn, then the two notifications.
#[derive(Clone, Debug, PartialEq, Eq)]
pub struct BurnEffects {
    pub burn: TokenBurn,
    pub sent_event: CrossChainFundSent,
    pub fund_event: FundStatusChanged,
}

/// What an inbound message asks of the outside: the mint.
#[derive(Clone, Debug, PartialEq, Eq)]
pub struct MintEffects {
    pub mint: TokenMint,
}

} // verus!
