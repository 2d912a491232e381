//! Create: the authority promises an amount to a user for a limited time.
use vstd::prelude::*;
use crate::errors::TreasuryError;
use crate::events::WithdrawalCreatedEvent;
use crate::identity::Identity;
use crate::state::{Mint, TokenAccount, TreasuryVault, WithdrawalRequest};

verus! {

/// What the creation of a withdrawal request is given.
#[derive(Clone, Copy, Debug, PartialEq, Eq)]
pub struct CreateWithdrawal {
    /// The caller, whose signature the ledger has verified.
    pub authority: Identity,
    /// The address of the vault record.
    pub vault_key: Identity,
    /// The vault record.
    pub vault: TreasuryVault,
    /// The mint that the caller presents.
    pub usdt_mint: Mint,
    /// The vault's asset-holding account, whose balance must cover the
    /// amount.
    pub vault_token_account: TokenAccount,
    /// The user who will be allowed to claim.
    pub user: Identity,
    /// The nonce with which the new record's address was derived.
    pub bump: u8,
}

impl CreateWithdrawal {
    /// The first check on the accounts that fails, if any.
    pub open spec fn violation(&self) -> Option<TreasuryError> {
        if self.vault.authority != self.authority {
            Some(TreasuryError::Unauthorized)
        } else if self.vault.usdt_mint != self.usdt_mint.key {
            Some(TreasuryError::InvalidMint)
        } else if self.vault_token_account.key != self.vault.vault_token_account {
            Some(TreasuryError::InvalidVaultAccount)
        } else {
            None
        }
    }

    /// What the handler decides on accounts that passed the checks: the new
    /// request with its event, or the failure. The balance is compared as it
    /// stands; nothing is set aside for requests that are still pending.
    pub open spec fn handled(&self, amount: u64, expires_in: i64, now: i64) -> Result<
        (WithdrawalRequest, WithdrawalCreatedEvent),
        TreasuryError,
    > {
        if amount == 0 {
            Err(TreasuryError::ZeroAmount)
        } else if expires_in <= 0 {
            Err(TreasuryError::InvalidExpiration)
        } else if self.vault_token_account.amount < amount {
            Err(TreasuryError::InsufficientBalance)
        } else if now + expires_in > i64::MAX {
            Err(TreasuryError::Overflow)
        } else {
            let expires_at = (now + expires_in) as i64;
            Ok(
                (
                    WithdrawalRequest {
                        vault: self.vault_key,
                        user: self.user,
                        amount,
                        created_at: now,
                        expires_at,
                        bump: self.bump,
                    },
                    WithdrawalCreatedEvent {
                        vault: self.vault_key,
                        user: self.user,
                        amount,
                        expires_at,
                        timestamp: now,
                    },
                ),
            )
        }
    }

    /// The whole operation: the checks on the accounts, then the handler.
    pub open spec fn outcome(&self, amount: u64, expires_in: i64, now: i64) -> Result<
        (WithdrawalRequest, WithdrawalCreatedEvent),
        TreasuryError,
    > {
        match self.violation() {
            Some(e) => Err(e),
            None => self.handled(amount, expires_in, now),
        }
    }

    /// Checks the accounts against the vault record, in a fixed order, and
    /// reports the first mismatch.
    pub fn validate(&self) -> (r: Result<(), TreasuryError>)
        ensures
            r == match self.violation() {
                Some(e) => Err::<(), TreasuryError>(e),
                None => Ok::<(), TreasuryError>(()),
            },
    {
        if !self.vault.authority.same(&self.authority) {
            Err(TreasuryError::Unauthorized)
        } else if !self.vault.usdt_mint.same(&self.usdt_mint.key) {
            Err(TreasuryError::InvalidMint)
        } else if !self.vault_token_account.key.same(&self.vault.vault_token_account) {
            Err(TreasuryError::InvalidVaultAccount)
        } else {
            Ok(())
        }
    }
}

/// Decides the creation of a request for `amount` that lives for
/// `expires_in` from `now`, on accounts that were validated. The result is
/// the record to store and the event to emit, or the failure.
pub fn handle_create_withdrawal(
    ctx: &CreateWithdrawal,
    amount: u64,
    expires_in: i64,
    now: i64,
) -> (r: Result<(WithdrawalRequest, WithdrawalCreatedEvent), TreasuryError>)
    ensures
        r == ctx.handled(amount, expires_in, now),
        r matches Ok((request, _)) ==> request.wf(),
{
    if amount == 0 {
        return Err(TreasuryError::ZeroAmount);
    }
    if expires_in <= 0 {
        return Err(TreasuryError::InvalidExpiration);
    }
    if ctx.vault_token_account.amount < amount {
        return Err(TreasuryError::InsufficientBalance);
    }
    let expires_at: i64 = match now.checked_add(expires_in) {
        Some(t) => t,
        None => { return Err(TreasuryError::Overflow); },
    };
    Ok(
        (
            WithdrawalRequest {
                vault: ctx.vault_key,
                user: ctx.user,
                amount,
                created_at: now,
                expires_at,
                bump: ctx.bump,
            },
            WithdrawalCreatedEvent {
                vault: ctx.vault_key,
                user: ctx.user,
                amount,
                expires_at,
                timestamp: now,
            },
        ),
    )
}

} // verus!
