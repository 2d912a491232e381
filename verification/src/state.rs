//! The persisted records and the plain values that operations read.
use vstd::prelude::*;
use crate::errors::TreasuryError;
use crate::identity::Identity;

verus! {

/// The configuration and running totals of one authority's vault.
#[derive(Clone, Copy, Debug, PartialEq, Eq)]
pub struct TreasuryVault {
    /// The only identity that may administer this vault.
    pub authority: Identity,
    /// The only destination of direct payouts.
    pub payout_wallet: Identity,
    /// The mint of the one asset that the vault holds.
    pub usdt_mint: Identity,
    /// The asset-holding account that the vault owns.
    pub vault_token_account: Identity,
    /// Sum of all accepted deposits, in raw units.
    pub total_deposited: u64,
    /// Sum of all payouts and claimed withdrawals, in raw units.
    pub total_paid_out: u64,
    /// Number of accepted deposits.
    pub deposit_count: u64,
    /// Number of payouts and claimed withdrawals.
    pub payout_count: u64,
    /// Time of the last deposit, zero if there was none.
    pub last_deposit_at: i64,
    /// Time of the last payout, zero if there was none.
    pub last_payout_at: i64,
    /// The nonce with which the vault's address was derived.
    pub bump: u8,
    /// Whether deposits and payouts are suspended.
    pub paused: bool,
}

impl TreasuryVault {
    /// Whether `other` names the same four identities and nonce as `self`:
    /// they are set once, at creation, and never reassigned.
    pub open spec fn same_configuration(&self, other: &TreasuryVault) -> bool {
        &&& self.authority == other.authority
        &&& self.payout_wallet == other.payout_wallet
        &&& self.usdt_mint == other.usdt_mint
        &&& self.vault_token_account == other.vault_token_account
        &&& self.bump == other.bump
    }

    /// Whether `self` can follow `before`: the configuration is the same and
    /// no total or count has gone down.
    pub open spec fn succeeds(&self, before: &TreasuryVault) -> bool {
        &&& self.same_configuration(before)
        &&& self.total_deposited >= before.total_deposited
        &&& self.total_paid_out >= before.total_paid_out
        &&& self.deposit_count >= before.deposit_count
        &&& self.payout_count >= before.payout_count
    }

    /// Whether the totals can take one more deposit of `amount` without
    /// wrapping.
    pub open spec fn can_credit(&self, amount: u64) -> bool {
        &&& self.total_deposited + amount <= u64::MAX
        &&& self.deposit_count + 1 <= u64::MAX
    }

    /// The record after one more deposit of `amount` at `now`.
    pub open spec fn credited(&self, amount: u64, now: i64) -> TreasuryVault
        recommends
            self.can_credit(amount),
    {
        TreasuryVault {
            total_deposited: (self.total_deposited + amount) as u64,
            deposit_count: (self.deposit_count + 1) as u64,
            last_deposit_at: now,
            ..*self
        }
    }

    /// Whether the totals can take one more payout of `amount` without
    /// wrapping.
    pub open spec fn can_debit(&self, amount: u64) -> bool {
        &&& self.total_paid_out + amount <= u64::MAX
        &&& self.payout_count + 1 <= u64::MAX
    }

    /// The record after one more payout of `amount` at `now`.
    pub open spec fn debited(&self, amount: u64, now: i64) -> TreasuryVault
        recommends
            self.can_debit(amount),
    {
        TreasuryVault {
            total_paid_out: (self.total_paid_out + amount) as u64,
            payout_count: (self.payout_count + 1) as u64,
            last_payout_at: now,
            ..*self
        }
    }

    /// Adds one deposit to the totals, or reports `Overflow` and changes
    /// nothing.
    pub fn record_deposit(&mut self, amount: u64, now: i64) -> (r: Result<(), TreasuryError>)
        ensures
            old(self).can_credit(amount) ==> r == Ok::<(), TreasuryError>(()) && *final(self)
                == old(self).credited(amount, now),
            !old(self).can_credit(amount) ==> r == Err::<(), TreasuryError>(
                TreasuryError::Overflow,
            ) && *final(self) == *old(self),
    {
        let total = match self.total_deposited.checked_add(amount) {
            Some(t) => t,
            None => { return Err(TreasuryError::Overflow); },
        };
        let count = match self.deposit_count.checked_add(1) {
            Some(c) => c,
            None => { return Err(TreasuryError::Overflow); },
        };
        self.total_deposited = total;
        self.deposit_count = count;
        self.last_deposit_at = now;
        Ok(())
    }

    /// Adds one payout to the totals, or reports `Overflow` and changes
    /// nothing.
    pub fn record_payout(&mut self, amount: u64, now: i64) -> (r: Result<(), TreasuryError>)
        ensures
            old(self).can_debit(amount) ==> r == Ok::<(), TreasuryError>(()) && *final(self)
                == old(self).debited(amount, now),
            !old(self).can_debit(amount) ==> r == Err::<(), TreasuryError>(
                TreasuryError::Overflow,
            ) && *final(self) == *old(self),
    {
        let total = match self.total_paid_out.checked_add(amount) {
            Some(t) => t,
            None => { return Err(TreasuryError::Overflow); },
        };
        let count = match self.payout_count.checked_add(1) {
            Some(c) => c,
            None => { return Err(TreasuryError::Overflow); },
        };
        self.total_paid_out = total;
        self.payout_count = count;
        self.last_payout_at = now;
        Ok(())
    }
}

/// A pending promise of `amount` to `user`, claimable until `expires_at`.
#[derive(Clone, Copy, Debug, PartialEq, Eq)]
pub struct WithdrawalRequest {
    /// The vault that the amount will come from.
    pub vault: Identity,
    /// The identity that may claim.
    pub user: Identity,
    /// The promised amount, in raw units.
    pub amount: u64,
    /// When the request was created.
    pub created_at: i64,
    /// The last moment at which the request can be claimed.
    pub expires_at: i64,
    /// The nonce with which the request's address was derived.
    pub bump: u8,
}

impl WithdrawalRequest {
    /// What holds of every request that was ever created: it promises a
    /// positive amount and expires after its creation.
    pub open spec fn wf(&self) -> bool {
        &&& self.amount > 0
        &&& self.created_at < self.expires_at
    }

    /// Whether the request can still be claimed at `now`.
    pub open spec fn live_at(&self, now: i64) -> bool {
        now <= self.expires_at
    }
}

/// A snapshot of an asset-holding account, as the ledger presents it.
#[derive(Clone, Copy, Debug, PartialEq, Eq)]
pub struct TokenAccount {
    /// The account's own address.
    pub key: Identity,
    /// The mint of the asset it holds.
    pub mint: Identity,
    /// The identity that may move its balance.
    pub owner: Identity,
    /// Its balance, in raw units.
    pub amount: u64,
}

/// A snapshot of an asset mint.
#[derive(Clone, Copy, Debug, PartialEq, Eq)]
pub struct Mint {
    /// The mint's address.
    pub key: Identity,
    /// The number of decimals of one unit.
    pub decimals: u8,
}

/// A movement of assets that an operation has decided on and that the
/// ledger's transfer primitive is to carry out within the same operation.
#[derive(Clone, Copy, Debug, PartialEq, Eq)]
pub struct Transfer {
    /// The account that is debited.
    pub from: Identity,
    /// The account that is credited.
    pub to: Identity,
    /// The identity that authorizes the movement: the caller for a deposit,
    /// the vault itself for everything that leaves it.
    pub authority: Identity,
    /// The mint of the asset.
    pub mint: Identity,
    /// The quantity, in raw units.
    pub amount: u64,
    /// The decimals of the mint, which the primitive checks.
    pub decimals: u8,
}

} // verus!
