//! Claim: the named user takes the promised amount before the request
//! expires.
use vstd::prelude::*;
use crate::errors::TreasuryError;
use crate::events::WithdrawalClaimedEvent;
use crate::identity::Identity;
use crate::state::{Mint, TokenAccount, Transfer, TreasuryVault, WithdrawalRequest};

verus! {

/// What a claim is given.
#[derive(Clone, Copy, Debug, PartialEq, Eq)]
pub struct ClaimWithdrawal {
    /// The caller, whose signature the ledger has verified.
    pub user: Identity,
    /// The authority that the caller names; it receives the storage cost of
    /// the closed request.
    pub authority: Identity,
    /// The address of the vault record.
    pub vault_key: Identity,
    /// The vault record.
    pub vault: TreasuryVault,
    /// The request record.
    pub withdrawal_request: WithdrawalRequest,
    /// The mint that the caller presents.
    pub usdt_mint: Mint,
    /// The vault's asset-holding account, the source.
    pub vault_token_account: TokenAccount,
    /// The address of the user's asset-holding account, the destination.
    pub user_token_account: Identity,
}

impl ClaimWithdrawal {
    /// The first check on the accounts that fails, if any.
    pub open spec fn violation(&self) -> Option<TreasuryError> {
        if self.vault.authority != self.authority {
            Some(TreasuryError::Unauthorized)
        } else if self.vault.usdt_mint != self.usdt_mint.key {
            Some(TreasuryError::InvalidMint)
        } else if self.withdrawal_request.user != self.user {
            Some(TreasuryError::Unauthorized)
        } else if self.withdrawal_request.vault != self.vault_key {
            Some(TreasuryError::InvalidVaultAccount)
        } else if self.vault_token_account.key != self.vault.vault_token_account {
            Some(TreasuryError::InvalidVaultAccount)
        } else {
            None
        }
    }

    /// The transfer that an accepted claim asks for. The vault itself
    /// authorizes it.
    pub open spec fn transfer(&self) -> Transfer {
        Transfer {
            from: self.vault_token_account.key,
            to: self.user_token_account,
            authority: self.vault_key,
            mint: self.usdt_mint.key,
            amount: self.withdrawal_request.amount,
            decimals: self.usdt_mint.decimals,
        }
    }

    /// What the handler decides on accounts that passed the checks: the new
    /// vault record with the transfer and the event, or the failure. A
    /// request can be claimed up to and including its expiry.
    pub open spec fn handled(&self, now: i64) -> Result<
        (TreasuryVault, Transfer, WithdrawalClaimedEvent),
        TreasuryError,
    > {
        let amount = self.withdrawal_request.amount;
        if now > self.withdrawal_request.expires_at {
            Err(TreasuryError::WithdrawalExpired)
        } else if self.vault_token_account.amount < amount {
            Err(TreasuryError::InsufficientBalance)
        } else if !self.vault.can_debit(amount) {
            Err(TreasuryError::Overflow)
        } else {
            let vault = self.vault.debited(amount, now);
            Ok(
                (
                    vault,
                    self.transfer(),
                    WithdrawalClaimedEvent {
                        vault: self.vault_key,
                        user: self.user,
                        amount,
                        total_paid_out: vault.total_paid_out,
                        payout_count: vault.payout_count,
                        timestamp: now,
                    },
                ),
            )
        }
    }

    /// The whole operation: the checks on the accounts, then the handler.
    pub open spec fn outcome(&self, now: i64) -> Result<
        (TreasuryVault, Transfer, WithdrawalClaimedEvent),
        TreasuryError,
    > {
        match self.violation() {
            Some(e) => Err(e),
            None => self.handled(now),
        }
    }

    /// Checks the accounts against the two records, in a fixed order, and
    /// reports the first mismatch.
    pub fn validate(&self) -> (r: Result<(), TreasuryError>)
        ensures
            r == match self.violation() {
                Some(e) => Err::<(), TreasuryError>(e),
                None => Ok::<(), TreasuryError>(()),
            },
    {
        if !self.vault.authority.same(&self.authority) {
            Err(TreasuryError::Unauthorized)
        } else if !self.vault.usdt_mint.same(&self.usdt_mint.key) {
            Err(TreasuryError::InvalidMint)
        } else if !self.withdrawal_request.user.same(&self.user) {
            Err(TreasuryError::Unauthorized)
        } else if !self.withdrawal_request.vault.same(&self.vault_key) {
            Err(TreasuryError::InvalidVaultAccount)
        } else if !self.vault_token_account.key.same(&self.vault.vault_token_account) {
            Err(TreasuryError::InvalidVaultAccount)
        } else {
            Ok(())
        }
    }
}

/// Decides a claim at time `now` on accounts that were validated. On success
/// the vault record in `ctx` carries the new totals, the result holds the
/// transfer to carry out and the event to emit, and the request is to be
/// closed; on failure `ctx` is as it was.
pub fn handle_claim_withdrawal(ctx: &mut ClaimWithdrawal, now: i64) -> (r: Result<
    (Transfer, WithdrawalClaimedEvent),
    TreasuryError,
>)
    ensures
        match old(ctx).handled(now) {
            Err(e) => {
                &&& r == Err::<(Transfer, WithdrawalClaimedEvent), TreasuryError>(e)
                &&& *final(ctx) == *old(ctx)
            },
            Ok((vault, transfer, event)) => {
                &&& r == Ok::<(Transfer, WithdrawalClaimedEvent), TreasuryError>((transfer, event))
                &&& *final(ctx) == (ClaimWithdrawal { vault, ..*old(ctx) })
            },
        },
{
    let amount: u64 = ctx.withdrawal_request.amount;
    if now > ctx.withdrawal_request.expires_at {
        return Err(TreasuryError::WithdrawalExpired);
    }
    if ctx.vault_token_account.amount < amount {
        return Err(TreasuryError::InsufficientBalance);
    }
    let transfer = Transfer {
        from: ctx.vault_token_account.key,
        to: ctx.user_token_account,
        authority: ctx.vault_key,
        mint: ctx.usdt_mint.key,
        amount,
        decimals: ctx.usdt_mint.decimals,
    };
    match ctx.vault.record_payout(amount, now) {
        Err(e) => Err(e),
        Ok(()) => Ok(
            (
                transfer,
                WithdrawalClaimedEvent {
                    vault: ctx.vault_key,
                    user: ctx.user,
                    amount,
                    total_paid_out: ctx.vault.total_paid_out,
                    payout_count: ctx.vault.payout_count,
                    timestamp: now,
                },
            ),
        ),
    }
}

} // verus!
