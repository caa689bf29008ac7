//! Fund accounting for one custody pool.
//!
//! The pool's value is idle, staked in a yield vault, or sent over a bridge to
//! another chain; what arrives over the bridge is counted as received. Every
//! move between these is decided here, by one function for each instruction:
//!
//! * [`instructions::initialize`] names the administrator, once;
//! * [`instructions::deposit`] stakes idle value, [`instructions::withdraw`]
//!   takes the whole vault position back;
//! * [`circle::deposit_for_burn`] burns idle value for a recipient on another
//!   chain and writes the numbered record of it;
//! * [`circle::receive_message`] takes in a message from another chain.
//!
//! Each works on a plain picture of the accounts it is given. It either
//! refuses, and leaves that picture as it was, or it changes the picture and
//! returns what is to be done outside: the token or vault call, with the seeds
//! of the program-held authority that signs it, and the notifications. The
//! caller makes the call; if the call fails, the caller drops the changed
//! picture, so that an instruction changes everything or nothing.
//!
//! The ledger itself is [`state::FundAccount`]. [`history`] states its
//! conservation law over any sequence of requests.

pub mod address;
pub mod authority;
pub mod circle;
pub mod effects;
pub mod error;
pub mod history;
pub mod instructions;
pub mod state;
