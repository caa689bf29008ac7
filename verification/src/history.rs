use vstd::prelude::*;
use crate::circle::deposit_for_burn::{
    after_deposit_for_burn, deposit_for_burn_error, DepositForBurn,
};
use crate::circle::receive_message::{after_receive_message, ReceiveMessage};
use crate::error::ErrorCode;
use crate::instructions::deposit::{after_deposit, deposit_error, Deposit};
use crate::instructions::withdraw::{after_withdraw, withdraw_error, Withdraw};
use crate::state::FundAccount;

verus! {

/// One request to the ledger.
#[derive(Clone, Copy, Debug, PartialEq, Eq)]
pub enum Transition {
    /// Move `amount` from idle to staked at time `now`.
    Stake { amount: u64, now: i64 },
    /// Move `amount` from staked back to idle at time `now`.
    Unstake { amount: u64, now: i64 },
    /// Move `amount` from idle to sent at time `now`.
    Send { amount: u64, now: i64 },
    /// Record an inbound `amount`.
    Receive { amount: u64 },
}

impl FundAccount {
    /// Why the ledger refuses `step`, if it does.
    pub open spec fn refusal(self, step: Transition) -> Option<ErrorCode> {
        match step {
            Transition::Stake { amount, now } => self.stake_error(amount),
            Transition::Unstake { amount, now } => self.unstake_error(amount),
            Transition::Send { amount, now } => self.send_error(amount),
            Transition::Receive { amount } => self.receive_error(amount),
        }
    }

    /// The ledger after `step` has been asked of it: moved where the step is
    /// accepted, as it was where the step is refused.
    pub open spec fn after(self, step: Transition) -> FundAccount {
        if self.refusal(step) is Some {
            self
        } else {
            match step {
                Transition::Stake { amount, now } => self.after_stake(amount, now),
                Transition::Unstake { amount, now } => self.after_unstake(amount, now),
                Transition::Send { amount, now } => self.after_send(amount, now),
                Transition::Receive { amount } => self.after_receive(amount),
            }
        }
    }

    /// The ledger after all of `steps` have been asked of it, in their order.
    pub open spec fn after_all(self, steps: Seq<Transition>) -> FundAccount
        decreases steps.len(),
    {
        if steps.len() == 0 {
            self
        } else {
            self.after_all(steps.drop_last()).after(steps.last())
        }
    }

    /// How many of `steps` the ledger accepts when they are asked of it in
    /// their order.
    pub open spec fn accepted_of(self, steps: Seq<Transition>) -> nat
        decreases steps.len(),
    {
        if steps.len() == 0 {
            0
        } else if self.after_all(steps.drop_last()).refusal(steps.last()) is None {
            self.accepted_of(steps.drop_last()) + 1
        } else {
            self.accepted_of(steps.drop_last())
        }
    }

    /// Asks `step` of the ledger. A refused step changes nothing.
    pub fn apply(&mut self, step: Transition) -> (done: Result<(), ErrorCode>)
        ensures
            *final(self) == old(self).after(step),
            match done {
                Ok(()) => old(self).refusal(step) is None,
                Err(e) => old(self).refusal(step) == Some(e),
            },
    {
        match step {
            Transition::Stake { amount, now } => self.debit_idle_for_stake(amount, now),
            Transition::Unstake { amount, now } => self.reverse_stake(amount, now),
            Transition::Send { amount, now } => self.debit_idle_for_send(amount, now),
            Transition::Receive { amount } => self.receive_inbound(amount),
        }
    }

    /// Asks all of `steps` of the ledger, in their order, and tells how many of
    /// them it accepted. A refused step changes nothing, and the next is asked
    /// all the same.
    pub fn apply_all(&mut self, steps: &Vec<Transition>) -> (accepted: usize)
        ensures
            *final(self) == old(self).after_all(steps@),
            accepted == old(self).accepted_of(steps@),
    {
        let mut accepted: usize = 0;
        let mut i: usize = 0;
        while i < steps.len()
            invariant
                i <= steps@.len(),
                accepted <= i,
                accepted == old(self).accepted_of(steps@.subrange(0, i as int)),
                *self == old(self).after_all(steps@.subrange(0, i as int)),
            decreases steps@.len() - i,
        {
            let done = self.apply(steps[i]);
            if done.is_ok() {
                accepted += 1;
            }
            assert(steps@.subrange(0, i + 1).drop_last() =~= steps@.subrange(0, i as int));
            i += 1;
        }
        assert(steps@.subrange(0, i as int) =~= steps@);
        accepted
    }
}

/// No single request, accepted or refused, changes the sum of idle, staked and
/// sent value.
pub proof fn step_conserves_value(ledger: FundAccount, step: Transition)
    ensures
        ledger.after(step).custody_total() == ledger.custody_total(),
{
}

/// Conservation of value: whatever stakes, unstakes, sends and receipts are
/// asked of a ledger, in whatever order and whether accepted or refused, the
/// sum of idle, staked and sent value stays what it was at the start, and no
/// counter is ever below zero.
pub proof fn value_is_conserved(ledger: FundAccount, steps: Seq<Transition>)
    ensures
        ledger.after_all(steps).custody_total() == ledger.custody_total(),
        ledger.after_all(steps).idle_amount >= 0,
        ledger.after_all(steps).staked_amount >= 0,
        ledger.after_all(steps).sent_amount >= 0,
        ledger.after_all(steps).total_received_amount >= 0,
        ledger.after_all(steps).authority == ledger.authority,
    decreases steps.len(),
{
    if steps.len() > 0 {
        value_is_conserved(ledger, steps.drop_last());
        step_conserves_value(ledger.after_all(steps.drop_last()), steps.last());
    }
}

/// The four operations of the program conserve value as the ledger's own
/// requests do: a stake, an unstake, an outbound transfer and an inbound
/// message each leave the sum of idle, staked and sent value as it was.
pub proof fn operations_conserve_value(
    stake: Deposit,
    unstake: Withdraw,
    send: DepositForBurn,
    receive: ReceiveMessage,
    amount: u64,
    destination_domain: u32,
    mint_recipient: [u8; 32],
    now: i64,
)
    ensures
        deposit_error(stake, amount) is None ==> after_deposit(
            stake,
            amount,
            now,
        ).fund_account.custody_total() == stake.fund_account.custody_total(),
        withdraw_error(unstake) is None ==> after_withdraw(
            unstake,
            now,
        ).fund_account.custody_total() == unstake.fund_account.custody_total(),
        deposit_for_burn_error(send, amount) is None ==> after_deposit_for_burn(
            send,
            amount,
            destination_domain,
            mint_recipient,
            now,
        ).fund_account.custody_total() == send.fund_account.custody_total(),
        after_receive_message(receive, amount).fund_account.custody_total()
            == receive.fund_account.custody_total(),
{
}

} // verus!
