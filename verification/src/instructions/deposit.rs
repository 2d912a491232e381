//! Deposit: the authority moves assets from its own account into the vault.
use vstd::prelude::*;
use crate::errors::TreasuryError;
use crate::events::DepositEvent;
use crate::identity::Identity;
use crate::state::{Mint, TokenAccount, Transfer, TreasuryVault};

verus! {

/// What a deposit is given.
#[derive(Clone, Copy, Debug, PartialEq, Eq)]
pub struct Deposit {
    /// The caller, whose signature the ledger has verified.
    pub authority: Identity,
    /// The address of the vault record.
    pub vault_key: Identity,
    /// The vault record.
    pub vault: TreasuryVault,
    /// The mint that the caller presents.
    pub usdt_mint: Mint,
    /// The caller's asset-holding account, the source.
    pub authority_token_account: TokenAccount,
    /// The vault's asset-holding account, the destination.
    pub vault_token_account: TokenAccount,
}

impl Deposit {
    /// The first check on the accounts that fails, if any.
    pub open spec fn violation(&self) -> Option<TreasuryError> {
        if self.vault.authority != self.authority {
            Some(TreasuryError::Unauthorized)
        } else if self.vault.usdt_mint != self.usdt_mint.key {
            Some(TreasuryError::InvalidMint)
        } else if self.vault.paused {
            Some(TreasuryError::VaultPaused)
        } else if self.authority_token_account.mint != self.usdt_mint.key {
            Some(TreasuryError::InvalidMint)
        } else if self.vault_token_account.key != self.vault.vault_token_account {
            Some(TreasuryError::InvalidVaultAccount)
        } else {
            None
        }
    }

    /// The transfer that an accepted deposit of `amount` asks for.
    pub open spec fn transfer(&self, amount: u64) -> Transfer {
        Transfer {
            from: self.authority_token_account.key,
            to: self.vault_token_account.key,
            authority: self.authority,
            mint: self.usdt_mint.key,
            amount,
            decimals: self.usdt_mint.decimals,
        }
    }

    /// What the handler decides on accounts that passed the checks: the new
    /// vault record with the transfer and the event, or the failure.
    pub open spec fn handled(&self, amount: u64, now: i64) -> Result<
        (TreasuryVault, Transfer, DepositEvent),
        TreasuryError,
    > {
        if amount == 0 {
            Err(TreasuryError::ZeroAmount)
        } else if !self.vault.can_credit(amount) {
            Err(TreasuryError::Overflow)
        } else {
            let vault = self.vault.credited(amount, now);
            Ok(
                (
                    vault,
                    self.transfer(amount),
                    DepositEvent {
                        vault: self.vault_key,
                        amount,
                        total_deposited: vault.total_deposited,
                        deposit_count: vault.deposit_count,
                        timestamp: now,
                    },
                ),
            )
        }
    }

    /// The whole operation: the checks on the accounts, then the handler.
    pub open spec fn outcome(&self, amount: u64, now: i64) -> Result<
        (TreasuryVault, Transfer, DepositEvent),
        TreasuryError,
    > {
        match self.violation() {
            Some(e) => Err(e),
            None => self.handled(amount, now),
        }
    }

    /// Checks the accounts against the vault record, in a fixed order, and
    /// reports the first mismatch.
    pub fn validate(&self) -> (r: Result<(), TreasuryError>)
        ensures
            r == match self.violation() {
                Some(e) => Err::<(), TreasuryError>(e),
                None => Ok::<(), TreasuryError>(()),
            },
    {
        if !self.vault.authority.same(&self.authority) {
            Err(TreasuryError::Unauthorized)
        } else if !self.vault.usdt_mint.same(&self.usdt_mint.key) {
            Err(TreasuryError::InvalidMint)
        } else if self.vault.paused {
            Err(TreasuryError::VaultPaused)
        } else if !self.authority_token_account.mint.same(&self.usdt_mint.key) {
            Err(TreasuryError::InvalidMint)
        } else if !self.vault_token_account.key.same(&self.vault.vault_token_account) {
            Err(TreasuryError::InvalidVaultAccount)
        } else {
            Ok(())
        }
    }
}

/// Decides a deposit of `amount` at time `now` on accounts that were
/// validated. On success the vault record in `ctx` carries the new totals and
/// the result holds the transfer to carry out and the event to emit; on
/// failure `ctx` is as it was.
pub fn handle_deposit(ctx: &mut Deposit, amount: u64, now: i64) -> (r: Result<
    (Transfer, DepositEvent),
    TreasuryError,
>)
    ensures
        match old(ctx).handled(amount, now) {
            Err(e) => {
                &&& r == Err::<(Transfer, DepositEvent), TreasuryError>(e)
                &&& *final(ctx) == *old(ctx)
            },
            Ok((vault, transfer, event)) => {
                &&& r == Ok::<(Transfer, DepositEvent), TreasuryError>((transfer, event))
                &&& *final(ctx) == (Deposit { vault, ..*old(ctx) })
            },
        },
{
    if amount == 0 {
        return Err(TreasuryError::ZeroAmount);
    }
    let transfer = Transfer {
        from: ctx.authority_token_account.key,
        to: ctx.vault_token_account.key,
        authority: ctx.authority,
        mint: ctx.usdt_mint.key,
        amount,
        decimals: ctx.usdt_mint.decimals,
    };
    match ctx.vault.record_deposit(amount, now) {
        Err(e) => Err(e),
        Ok(()) => Ok(
            (
                transfer,
                DepositEvent {
                    vault: ctx.vault_key,
                    amount,
                    total_deposited: ctx.vault.total_deposited,
                    deposit_count: ctx.vault.deposit_count,
                    timestamp: now,
                },
            ),
        ),
    }
}

} // verus!
