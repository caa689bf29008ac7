use vstd::prelude::*;
use crate::error::ErrorCode;
use crate::state::Pubkey;

verus! {

/// The one configuration record: who the administrator is and which token
/// account holds the custody value.
#[derive(Clone, Copy, Debug, PartialEq, Eq)]
pub struct GlobalState {
    /// Set by the first initialization and never cleared.
    pub initialized: bool,
    /// The administrator, who alone may stake and unstake.
    pub admin: Pubkey,
    /// The token account that holds the custody value.
    pub token_account: Pubkey,
    /// Summary total. Initialization sets it to zero and no operation changes
    /// it: the balances are kept in the ledger alone.
    pub total_funds: u64,
    /// Summary of the staked value, kept like `total_funds`.
    pub staked_funds: u64,
    /// Summary of the idle value, kept like `total_funds`.
    pub idle_funds: u64,
}

impl GlobalState {
    /// Bytes of the stored record.
    pub const LEN: usize = 32 + 32 + 8 + 8 + 8 + 1;

    /// Asked before every privileged operation: accepts the administrator
    /// and refuses everyone else with `UnauthorizedAdmin`.
    pub fn authorize(&self, caller: &Pubkey) -> (done: Result<(), ErrorCode>)
        ensures
            self.admin == *caller ==> done == Ok::<(), ErrorCode>(()),
            self.admin != *caller ==> done == Err::<(), ErrorCode>(ErrorCode::UnauthorizedAdmin),
    {
        if self.admin != *caller {
            Err(ErrorCode::UnauthorizedAdmin)
        } else {
            Ok(())
        }
    }

    /// The record as the first initialization leaves it.
    pub open spec fn fresh(admin: Pubkey, token_account: Pubkey) -> GlobalState {
        GlobalState {
            initialized: true,
            admin,
            token_account,
            total_funds: 0,
            staked_funds: 0,
            idle_funds: 0,
        }
    }
}

/// What an initialization works on: the configuration record, the custody
/// token account and the caller.
#[derive(Clone, Copy, Debug, PartialEq, Eq)]
pub struct Initialize {
    pub global_state: GlobalState,
    pub program_token_account: Pubkey,
    pub payer: Pubkey,
}

/// Why an initialization is refused, if it is.
pub open spec fn initialize_error(ctx: Initialize) -> Option<ErrorCode> {
    if ctx.global_state.initialized {
        Some(ErrorCode::RepeatedInit)
    } else {
        None
    }
}

/// The accounts after an initialization that was not refused.
pub open spec fn after_initialize(ctx: Initialize) -> Initialize {
    Initialize {
        global_state: GlobalState::fresh(ctx.payer, ctx.program_token_account),
        ..ctx
    }
}

/// Makes the caller the administrator and records the custody token account,
/// with all summary totals at zero.
///
/// Refused with `RepeatedInit` on a record that is already initialized; the
/// record then stays as it is.
pub fn initialize(ctx: &mut Initialize) -> (done: Result<(), ErrorCode>)
    ensures
        match done {
            Ok(()) => initialize_error(*old(ctx)) is None && *final(ctx) == after_initialize(
                *old(ctx),
            ),
            Err(e) => initialize_error(*old(ctx)) == Some(e) && *final(ctx) == *old(ctx),
        },
{
    if ctx.global_state.initialized {
        return Err(ErrorCode::RepeatedInit);
    }
    ctx.global_state.initialized = true;
    ctx.global_state.admin = ctx.payer;
    ctx.global_state.token_account = ctx.program_token_account;
    ctx.global_state.total_funds = 0;
    ctx.global_state.staked_funds = 0;
    ctx.global_state.idle_funds = 0;
    Ok(())
}

/// An initialized record refuses every further initialization, whoever asks
/// and whichever token account is offered, so the first one stands.
pub proof fn initialize_happens_once(first: Initialize, payer: Pubkey, token_account: Pubkey)
    requires
        initialize_error(first) is None,
    ensures
        initialize_error(
            Initialize { payer, program_token_account: token_account, ..after_initialize(first) },
        ) == Some(ErrorCode::RepeatedInit),
{
}

} // verus!
