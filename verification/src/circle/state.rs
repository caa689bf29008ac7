use vstd::prelude::*;
use crate::error::ErrorCode;
use crate::state::Pubkey;

verus! {

/// The inbound side of the bridge: while it is paused nothing is minted.
#[derive(Clone, Copy, Debug, PartialEq, Eq)]
pub struct MessageTransmitter {
    pub authority: Pubkey,
    pub nonce: u64,
    pub paused: bool,
}

/// The outbound side of the bridge for one token. Its nonce numbers the burn
/// records: it only ever goes up, by one for each record.
#[derive(Clone, Copy, Debug, PartialEq, Eq)]
pub struct TokenMessenger {
    pub authority: Pubkey,
    pub local_token: Pubkey,
    pub remote_domain: u32,
    pub nonce: u64,
}

/// The record of one outbound transfer. It is written once, when the value is
/// burned, under the nonce that the messenger had at that moment.
#[derive(Clone, Copy, Debug, PartialEq, Eq)]
pub struct BurnMessage {
    pub amount: u64,
    pub mint: Pubkey,
    pub remote_domain: u32,
    pub recipient: [u8; 32],
    pub nonce: u64,
}

impl TokenMessenger {
    /// Gives out the present nonce and moves on to the next. A nonce that was
    /// given out is never given out again: the counter only goes up.
    ///
    /// Refused with `MathOverflow` at the last 64-bit number; the messenger
    /// then stays as it is.
    pub fn next_nonce(&mut self) -> (issued: Result<u64, ErrorCode>)
        ensures
            match issued {
                Ok(nonce) => {
                    &&& nonce == old(self).nonce
                    &&& old(self).nonce < u64::MAX
                    &&& *final(self) == (TokenMessenger {
                        nonce: (old(self).nonce + 1) as u64,
                        ..*old(self)
                    })
                },
                Err(e) => {
                    &&& e == ErrorCode::MathOverflow
                    &&& old(self).nonce == u64::MAX
                    &&& *final(self) == *old(self)
                },
            },
    {
        let nonce: u64 = self.nonce;
        match nonce.checked_add(1) {
            Some(next) => {
                self.nonce = next;
                Ok(nonce)
            },
            None => Err(ErrorCode::MathOverflow),
        }
    }
}

impl Default for MessageTransmitter {
    fn default() -> (transmitter: MessageTransmitter)
        ensures
            transmitter.authority.is_zero(),
            transmitter.nonce == 0,
            !transmitter.paused,
    {
        MessageTransmitter { authority: Pubkey::default(), nonce: 0, paused: false }
    }
}

impl Default for TokenMessenger {
    fn default() -> (messenger: TokenMessenger)
        ensures
            messenger.authority.is_zero(),
            messenger.local_token.is_zero(),
            messenger.remote_domain == 0,
            messenger.nonce == 0,
    {
        TokenMessenger {
            authority: Pubkey::default(),
            local_token: Pubkey::default(),
            remote_domain: 0,
            nonce: 0,
        }
    }
}

impl Default for BurnMessage {
    fn default() -> (record: BurnMessage)
        ensures
            record.amount == 0,
            record.mint.is_zero(),
            record.remote_domain == 0,
            record.recipient@ == Seq::new(32, |i: int| 0u8),
            record.nonce == 0,
    {
        let record = BurnMessage {
            amount: 0,
            mint: Pubkey::default(),
            remote_domain: 0,
            recipient: [0u8; 32],
            nonce: 0,
        };
        assert(record.recipient@ =~= Seq::new(32, |i: int| 0u8));
        record
    }
}

} // verus!
