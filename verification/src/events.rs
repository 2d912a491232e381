//! The notifications that operations emit, one per state transition.
use vstd::prelude::*;
use crate::identity::Identity;

verus! {

/// A vault was created.
#[derive(Clone, Copy, Debug, PartialEq, Eq)]
pub struct VaultInitialized {
    pub vault: Identity,
    pub authority: Identity,
    pub payout_wallet: Identity,
    pub usdt_mint: Identity,
    pub timestamp: i64,
}

/// A deposit was accepted.
#[derive(Clone, Copy, Debug, PartialEq, Eq)]
pub struct DepositEvent {
    pub vault: Identity,
    pub amount: u64,
    pub total_deposited: u64,
    pub deposit_count: u64,
    pub timestamp: i64,
}

/// A direct payout was made.
#[derive(Clone, Copy, Debug, PartialEq, Eq)]
pub struct PayoutEvent {
    pub vault: Identity,
    pub payout_wallet: Identity,
    pub amount: u64,
    pub total_paid_out: u64,
    pub payout_count: u64,
    pub timestamp: i64,
}

/// The vault was paused or resumed.
#[derive(Clone, Copy, Debug, PartialEq, Eq)]
pub struct VaultPausedEvent {
    pub vault: Identity,
    pub paused: bool,
    pub timestamp: i64,
}

/// A withdrawal request was created.
#[derive(Clone, Copy, Debug, PartialEq, Eq)]
pub struct WithdrawalCreatedEvent {
    pub vault: Identity,
    pub user: Identity,
    pub amount: u64,
    pub expires_at: i64,
    pub timestamp: i64,
}

/// A withdrawal request was claimed by its user.
#[derive(Clone, Copy, Debug, PartialEq, Eq)]
pub struct WithdrawalClaimedEvent {
    pub vault: Identity,
    pub user: Identity,
    pub amount: u64,
    pub total_paid_out: u64,
    pub payout_count: u64,
    pub timestamp: i64,
}

/// An expired withdrawal request was cancelled.
#[derive(Clone, Copy, Debug, PartialEq, Eq)]
pub struct WithdrawalCancelledEvent {
    pub vault: Identity,
    pub user: Identity,
    pub amount: u64,
    pub timestamp: i64,
}

} // verus!
