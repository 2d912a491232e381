//! The seven operations, each with the accounts it is given, the checks on
//! them and the decision it takes.
pub mod cancel_withdrawal;
pub mod claim_withdrawal;
pub mod create_withdrawal;
pub mod deposit;
pub mod initialize;
pub mod payout;
pub mod set_paused;

pub use cancel_withdrawal::{handle_cancel_withdrawal, CancelWithdrawal};
pub use claim_withdrawal::{handle_claim_withdrawal, ClaimWithdrawal};
pub use create_withdrawal::{handle_create_withdrawal, CreateWithdrawal};
pub use deposit::{handle_deposit, Deposit};
pub use initialize::Initialize;
pub use payout::Payout;
pub use set_paused::SetPaused;
