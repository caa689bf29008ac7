pub mod deposit;
pub mod initialize;
pub mod withdraw;

pub use deposit::{deposit, Deposit};
pub use initialize::{initialize, GlobalState, Initialize};
pub use withdraw::{withdraw, Withdraw};
