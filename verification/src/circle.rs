pub mod deposit_for_burn;
pub mod receive_message;
pub mod state;

pub use deposit_for_burn::{deposit_for_burn, DepositForBurn};
pub use receive_message::{receive_message, MessageData, ReceiveMessage};
pub use state::{BurnMessage, MessageTransmitter, TokenMessenger};
