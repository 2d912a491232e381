//! Payout: the authority sends assets from the vault to the payout wallet.
use vstd::prelude::*;
use crate::errors::TreasuryError;
use crate::events::PayoutEvent;
use crate::identity::Identity;
use crate::state::{Mint, TokenAccount, Transfer, TreasuryVault};

verus! {

/// What a payout is given.
#[derive(Clone, Copy, Debug, PartialEq, Eq)]
pub struct Payout {
    /// The caller, whose signature the ledger has verified.
    pub authority: Identity,
    /// The address of the vault record.
    pub vault_key: Identity,
    /// The vault record.
    pub vault: TreasuryVault,
    /// The mint that the caller presents.
    pub usdt_mint: Mint,
    /// The vault's asset-holding account, the source.
    pub vault_token_account: TokenAccount,
    /// The address of the payout wallet's asset-holding account, the
    /// destination.
    pub payout_token_account: Identity,
    /// The wallet that the caller names as destination.
    pub payout_wallet: Identity,
}

impl Payout {
    /// The first check on the accounts that fails, if any.
    pub open spec fn violation(&self) -> Option<TreasuryError> {
        if self.vault.authority != self.authority {
            Some(TreasuryError::Unauthorized)
        } else if self.vault.payout_wallet != self.payout_wallet {
            Some(TreasuryError::InvalidPayoutWallet)
        } else if self.vault.usdt_mint != self.usdt_mint.key {
            Some(TreasuryError::InvalidMint)
        } else if self.vault.paused {
            Some(TreasuryError::VaultPaused)
        } else if self.vault_token_account.key != self.vault.vault_token_account {
            Some(TreasuryError::InvalidVaultAccount)
        } else {
            None
        }
    }

    /// The transfer that an accepted payout of `amount` asks for. The vault
    /// itself authorizes it.
    pub open spec fn transfer(&self, amount: u64) -> Transfer {
        Transfer {
            from: self.vault_token_account.key,
            to: self.payout_token_account,
            authority: self.vault_key,
            mint: self.usdt_mint.key,
            amount,
            decimals: self.usdt_mint.decimals,
        }
    }

    /// What the handler decides on accounts that passed the checks: the new
    /// vault record with the transfer and the event, or the failure.
    pub open spec fn handled(&self, amount: u64, now: i64) -> Result<
        (TreasuryVault, Transfer, PayoutEvent),
        TreasuryError,
    > {
        if amount == 0 {
            Err(TreasuryError::ZeroAmount)
        } else if self.vault_token_account.amount < amount {
            Err(TreasuryError::InsufficientBalance)
        } else if !self.vault.can_debit(amount) {
            Err(TreasuryError::Overflow)
        } else {
            let vault = self.vault.debited(amount, now);
            Ok(
                (
                    vault,
                    self.transfer(amount),
                    PayoutEvent {
                        vault: self.vault_key,
                        payout_wallet: self.payout_wallet,
                        amount,
                        total_paid_out: vault.total_paid_out,
                        payout_count: vault.payout_count,
                        timestamp: now,
                    },
                ),
            )
        }
    }

    /// The whole operation: the checks on the accounts, then the handler.
    pub open spec fn outcome(&self, amount: u64, now: i64) -> Result<
        (TreasuryVault, Transfer, PayoutEvent),
        TreasuryError,
    > {
        match self.violation() {
            Some(e) => Err(e),
            None => self.handled(amount, now),
        }
    }

    /// Checks the accounts against the vault record, in a fixed order, and
    /// reports the first mismatch.
    pub fn validate(&self) -> (r: Result<(), TreasuryError>)
        ensures
            r == match self.violation() {
                Some(e) => Err::<(), TreasuryError>(e),
                None => Ok::<(), TreasuryError>(()),
            },
    {
        if !self.vault.authority.same(&self.authority) {
            Err(TreasuryError::Unauthorized)
        } else if !self.vault.payout_wallet.same(&self.payout_wallet) {
            Err(TreasuryError::InvalidPayoutWallet)
        } else if !self.vault.usdt_mint.same(&self.usdt_mint.key) {
            Err(TreasuryError::InvalidMint)
        } else if self.vault.paused {
            Err(TreasuryError::VaultPaused)
        } else if !self.vault_token_account.key.same(&self.vault.vault_token_account) {
            Err(TreasuryError::InvalidVaultAccount)
        } else {
            Ok(())
        }
    }
}

/// Decides a payout of `amount` at time `now` on accounts that were
/// validated. On success the vault record in `ctx` carries the new totals and
/// the result holds the transfer to carry out and the event to emit; on
/// failure `ctx` is as it was.
pub fn handler(ctx: &mut Payout, amount: u64, now: i64) -> (r: Result<
    (Transfer, PayoutEvent),
    TreasuryError,
>)
    ensures
        match old(ctx).handled(amount, now) {
            Err(e) => {
                &&& r == Err::<(Transfer, PayoutEvent), TreasuryError>(e)
                &&& *final(ctx) == *old(ctx)
            },
            Ok((vault, transfer, event)) => {
                &&& r == Ok::<(Transfer, PayoutEvent), TreasuryError>((transfer, event))
                &&& *final(ctx) == (Payout { vault, ..*old(ctx) })
            },
        },
{
    if amount == 0 {
        return Err(TreasuryError::ZeroAmount);
    }
    if ctx.vault_token_account.amount < amount {
        return Err(TreasuryError::InsufficientBalance);
    }
    let transfer = Transfer {
        from: ctx.vault_token_account.key,
        to: ctx.payout_token_account,
        authority: ctx.vault_key,
        mint: ctx.usdt_mint.key,
        amount,
        decimals: ctx.usdt_mint.decimals,
    };
    match ctx.vault.record_payout(amount, now) {
        Err(e) => Err(e),
        Ok(()) => Ok(
            (
                transfer,
                PayoutEvent {
                    vault: ctx.vault_key,
                    payout_wallet: ctx.payout_wallet,
                    amount,
                    total_paid_out: ctx.vault.total_paid_out,
                    payout_count: ctx.vault.payout_count,
                    timestamp: now,
                },
            ),
        ),
    }
}

} // verus!
