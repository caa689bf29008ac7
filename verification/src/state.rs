use vstd::prelude::*;
use vstd::std_specs::cmp::PartialEqSpecImpl;
use crate::error::ErrorCode;

verus! {

/// A 32-byte identity: an account address, an administrator or a program.
#[derive(Clone, Copy, Debug, Eq, Hash)]
pub struct Pubkey {
    pub bytes: [u8; 32],
}

impl Pubkey {
    /// The identity made of the given bytes.
    pub fn new_from_array(bytes: [u8; 32]) -> (key: Pubkey)
        ensures
            key.bytes == bytes,
    {
        Pubkey { bytes }
    }

    /// Whether every byte is zero.
    pub open spec fn is_zero(self) -> bool {
        self@ == Seq::new(32, |i: int| 0u8)
    }

    /// The bytes of this identity.
    pub fn to_bytes(&self) -> (bytes: [u8; 32])
        ensures
            bytes == self.bytes,
    {
        self.bytes
    }
}

impl Default for Pubkey {
    fn default() -> (key: Pubkey)
        ensures
            key.is_zero(),
    {
        let key = Pubkey { bytes: [0u8; 32] };
        assert(key@ =~= Seq::new(32, |i: int| 0u8));
        key
    }
}

impl View for Pubkey {
    type V = Seq<u8>;

    open spec fn view(&self) -> Seq<u8> {
        self.bytes@
    }
}

impl PartialEq for Pubkey {
    fn eq(&self, other: &Pubkey) -> (same: bool) {
        let mut i: usize = 0;
        while i < 32
            invariant
                i <= 32,
                forall|j: int| 0 <= j < i ==> self.bytes[j] == other.bytes[j],
            decreases 32 - i,
        {
            if self.bytes[i] != other.bytes[i] {
                return false;
            }
            i += 1;
        }
        assert(self.bytes =~= other.bytes);
        true
    }
}

impl PartialEqSpecImpl for Pubkey {
    open spec fn obeys_eq_spec() -> bool {
        true
    }

    open spec fn eq_spec(&self, other: &Pubkey) -> bool {
        *self == *other
    }
}

/// The lifecycle bucket a unit of custody value is in.
#[derive(Clone, Copy, Debug, PartialEq, Eq, Structural)]
pub enum FundStatus {
    /// Available for staking or for an outbound transfer.
    Idle,
    /// Delegated to the yield vault.
    Staked,
    /// Burned for an outbound cross-chain transfer.
    Sent,
}

/// Notification that value moved from one bucket to another.
#[derive(Clone, Copy, Debug, PartialEq, Eq)]
pub struct FundStatusChanged {
    pub amount: u64,
    pub from_status: FundStatus,
    pub to_status: FundStatus,
    pub token_account: Pubkey,
    pub timestamp: i64,
}

/// Notification that value arrived from another chain.
#[derive(Clone, Copy, Debug, PartialEq, Eq)]
pub struct CrossChainFundReceived {
    pub amount: u64,
    pub source_chain: u32,
    pub sender: [u8; 32],
    pub timestamp: i64,
}

/// Notification that value was burned for a recipient on another chain.
#[derive(Clone, Copy, Debug, PartialEq, Eq)]
pub struct CrossChainFundSent {
    pub amount: u64,
    pub destination_chain: u32,
    pub recipient: [u8; 32],
    pub timestamp: i64,
}

/// Notification that value was staked (`is_stake`) or taken back from the vault.
#[derive(Clone, Copy, Debug, PartialEq, Eq)]
pub struct StakeStatusChanged {
    pub amount: u64,
    pub is_stake: bool,
    pub stake_account: Pubkey,
    pub timestamp: i64,
}

/// The ledger of one custody location: how much of its value is idle, staked
/// and sent, how much it has received, and when it last changed.
#[derive(Clone, Copy, Debug, PartialEq, Eq)]
pub struct FundAccount {
    /// Value available for staking or for an outbound transfer.
    pub idle_amount: u64,
    /// Value delegated to the vault.
    pub staked_amount: u64,
    /// Cumulative value burned for outbound transfers.
    pub sent_amount: u64,
    /// Cumulative value minted from inbound transfers.
    pub total_received_amount: u64,
    /// Time of the last stake, unstake or send.
    pub last_update_time: i64,
    /// The administrator who owns this ledger.
    pub authority: Pubkey,
}

impl FundAccount {
    /// Bytes of the stored record: an 8-byte tag, five 8-byte numbers and the authority.
    pub const LEN: usize = 8 + 8 + 8 + 8 + 8 + 8 + 32;

    /// The value under custody or already sent on: idle, staked and sent together.
    /// No ledger operation changes it.
    pub open spec fn custody_total(self) -> int {
        self.idle_amount + self.staked_amount + self.sent_amount
    }

    /// Why `amount` cannot move from idle to staked, if it cannot.
    pub open spec fn stake_error(self, amount: u64) -> Option<ErrorCode> {
        if amount > self.idle_amount {
            Some(ErrorCode::InsufficientIdleFunds)
        } else if self.staked_amount + amount > u64::MAX {
            Some(ErrorCode::MathOverflow)
        } else {
            None
        }
    }

    /// The ledger after `amount` has moved from idle to staked at time `now`.
    pub open spec fn after_stake(self, amount: u64, now: i64) -> FundAccount {
        FundAccount {
            idle_amount: (self.idle_amount - amount) as u64,
            staked_amount: (self.staked_amount + amount) as u64,
            last_update_time: now,
            ..self
        }
    }

    /// Why `amount` cannot move from idle to sent, if it cannot.
    pub open spec fn send_error(self, amount: u64) -> Option<ErrorCode> {
        if amount > self.idle_amount {
            Some(ErrorCode::InsufficientIdleFunds)
        } else if self.sent_amount + amount > u64::MAX {
            Some(ErrorCode::MathOverflow)
        } else {
            None
        }
    }

    /// The ledger after `amount` has moved from idle to sent at time `now`.
    pub open spec fn after_send(self, amount: u64, now: i64) -> FundAccount {
        FundAccount {
            idle_amount: (self.idle_amount - amount) as u64,
            sent_amount: (self.sent_amount + amount) as u64,
            last_update_time: now,
            ..self
        }
    }

    /// Why `amount` cannot move from staked back to idle, if it cannot.
    pub open spec fn unstake_error(self, amount: u64) -> Option<ErrorCode> {
        if amount > self.staked_amount || self.idle_amount + amount > u64::MAX {
            Some(ErrorCode::MathOverflow)
        } else {
            None
        }
    }

    /// The ledger after `amount` has moved from staked back to idle at time `now`.
    pub open spec fn after_unstake(self, amount: u64, now: i64) -> FundAccount {
        FundAccount {
            staked_amount: (self.staked_amount - amount) as u64,
            idle_amount: (self.idle_amount + amount) as u64,
            last_update_time: now,
            ..self
        }
    }

    /// Why an inbound `amount` cannot be recorded, if it cannot.
    pub open spec fn receive_error(self, amount: u64) -> Option<ErrorCode> {
        if self.total_received_amount + amount > u64::MAX {
            Some(ErrorCode::MathOverflow)
        } else {
            None
        }
    }

    /// The ledger after an inbound `amount` has been recorded.
    pub open spec fn after_receive(self, amount: u64) -> FundAccount {
        FundAccount {
            total_received_amount: (self.total_received_amount + amount) as u64,
            ..self
        }
    }

    /// Moves `amount` from idle to staked and stamps the ledger with `now`.
    ///
    /// Refused with `InsufficientIdleFunds` when `amount` exceeds the idle
    /// balance, with `MathOverflow` when the staked balance would leave the
    /// 64-bit range. A refused call changes nothing.
    pub fn debit_idle_for_stake(&mut self, amount: u64, now: i64) -> (done: Result<(), ErrorCode>)
        ensures
            match done {
                Ok(()) => old(self).stake_error(amount) is None
                    && *final(self) == old(self).after_stake(amount, now),
                Err(e) => old(self).stake_error(amount) == Some(e) && *final(self) == *old(self),
            },
    {
        if self.idle_amount < amount {
            return Err(ErrorCode::InsufficientIdleFunds);
        }
        let staked: u64 = match self.staked_amount.checked_add(amount) {
            Some(v) => v,
            None => {
                return Err(ErrorCode::MathOverflow);
            },
        };
        self.idle_amount = self.idle_amount - amount;
        self.staked_amount = staked;
        self.last_update_time = now;
        Ok(())
    }

    /// Moves `amount` from idle to sent and stamps the ledger with `now`.
    ///
    /// Refused with `InsufficientIdleFunds` when `amount` exceeds the idle
    /// balance, with `MathOverflow` when the sent total would leave the 64-bit
    /// range. A refused call changes nothing.
    pub fn debit_idle_for_send(&mut self, amount: u64, now: i64) -> (done: Result<(), ErrorCode>)
        ensures
            match done {
                Ok(()) => old(self).send_error(amount) is None
                    && *final(self) == old(self).after_send(amount, now),
                Err(e) => old(self).send_error(amount) == Some(e) && *final(self) == *old(self),
            },
    {
        if self.idle_amount < amount {
            return Err(ErrorCode::InsufficientIdleFunds);
        }
        let sent: u64 = match self.sent_amount.checked_add(amount) {
            Some(v) => v,
            None => {
                return Err(ErrorCode::MathOverflow);
            },
        };
        self.idle_amount = self.idle_amount - amount;
        self.sent_amount = sent;
        self.last_update_time = now;
        Ok(())
    }

    /// Moves `amount` from staked back to idle and stamps the ledger with `now`.
    ///
    /// Refused with `MathOverflow` when `amount` exceeds the staked balance
    /// (the ledger and the vault disagree) or when the idle balance would leave
    /// the 64-bit range. A refused call changes nothing.
    pub fn reverse_stake(&mut self, amount: u64, now: i64) -> (done: Result<(), ErrorCode>)
        ensures
            match done {
                Ok(()) => old(self).unstake_error(amount) is None
                    && *final(self) == old(self).after_unstake(amount, now),
                Err(e) => old(self).unstake_error(amount) == Some(e) && *final(self) == *old(
                    self,
                ),
            },
    {
        let staked: u64 = match self.staked_amount.checked_sub(amount) {
            Some(v) => v,
            None => {
                return Err(ErrorCode::MathOverflow);
            },
        };
        let idle: u64 = match self.idle_amount.checked_add(amount) {
            Some(v) => v,
            None => {
                return Err(ErrorCode::MathOverflow);
            },
        };
        self.staked_amount = staked;
        self.idle_amount = idle;
        self.last_update_time = now;
        Ok(())
    }

    /// Adds an inbound `amount` to the received total and touches nothing else.
    ///
    /// Refused with `MathOverflow` when the total would leave the 64-bit range.
    /// A refused call changes nothing.
    pub fn receive_inbound(&mut self, amount: u64) -> (done: Result<(), ErrorCode>)
        ensures
            match done {
                Ok(()) => old(self).receive_error(amount) is None
                    && *final(self) == old(self).after_receive(amount),
                Err(e) => old(self).receive_error(amount) == Some(e) && *final(self) == *old(
                    self,
                ),
            },
    {
        let received: u64 = match self.total_received_amount.checked_add(amount) {
            Some(v) => v,
            None => {
                return Err(ErrorCode::MathOverflow);
            },
        };
        self.total_received_amount = received;
        Ok(())
    }
}

} // verus!
