//! A custodial escrow controller.
//!
//! One authority administers a vault that holds a pooled balance of a single
//! asset. Funds leave the vault either by a direct payout to a fixed wallet or
//! through a withdrawal request that a named user may claim until it expires.
//!
//! The crate holds the rules only: who may invoke an operation, which checks
//! must pass, how the running totals move and how a withdrawal request lives
//! and dies. The clock value, the balances of asset-holding accounts and the
//! transfer of assets itself belong to the surrounding ledger; the operations
//! take the first two as arguments and hand the third back as a [`Transfer`]
//! to be carried out.
pub mod errors;
pub mod events;
pub mod identity;
pub mod instructions;
pub mod ledger;
pub mod program;
pub mod state;
pub mod theorems;

pub use errors::TreasuryError;
pub use identity::Identity;
pub use ledger::{Ledger, OperationError};
pub use program::{
    cancel_withdrawal, claim_withdrawal, create_withdrawal, deposit, initialize, payout,
    set_paused,
};
pub use state::{Mint, TokenAccount, Transfer, TreasuryVault, WithdrawalRequest};
