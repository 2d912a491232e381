//! Cancel: the authority removes a request that has expired unclaimed.
use vstd::prelude::*;
use crate::errors::TreasuryError;
use crate::events::WithdrawalCancelledEvent;
use crate::identity::Identity;
use crate::state::{TreasuryVault, WithdrawalRequest};

verus! {

/// What a cancellation is given.
#[derive(Clone, Copy, Debug, PartialEq, Eq)]
pub struct CancelWithdrawal {
    /// The caller, whose signature the ledger has verified.
    pub authority: Identity,
    /// The address of the vault record.
    pub vault_key: Identity,
    /// The vault record.
    pub vault: TreasuryVault,
    /// The user that the request was made for.
    pub user: Identity,
    /// The request record.
    pub withdrawal_request: WithdrawalRequest,
}

impl CancelWithdrawal {
    /// The first check on the accounts that fails, if any.
    pub open spec fn violation(&self) -> Option<TreasuryError> {
        if self.vault.authority != self.authority {
            Some(TreasuryError::Unauthorized)
        } else if self.withdrawal_request.vault != self.vault_key {
            Some(TreasuryError::InvalidVaultAccount)
        } else {
            None
        }
    }

    /// What the handler decides on accounts that passed the checks: the
    /// event, or the failure. A request can be cancelled only strictly after
    /// its expiry.
    pub open spec fn handled(&self, now: i64) -> Result<WithdrawalCancelledEvent, TreasuryError> {
        if now > self.withdrawal_request.expires_at {
            Ok(
                WithdrawalCancelledEvent {
                    vault: self.vault_key,
                    user: self.user,
                    amount: self.withdrawal_request.amount,
                    timestamp: now,
                },
            )
        } else {
            Err(TreasuryError::WithdrawalNotExpired)
        }
    }

    /// The whole operation: the checks on the accounts, then the handler.
    pub open spec fn outcome(&self, now: i64) -> Result<WithdrawalCancelledEvent, TreasuryError> {
        match self.violation() {
            Some(e) => Err(e),
            None => self.handled(now),
        }
    }

    /// Checks the accounts against the two records, in a fixed order, and
    /// reports the first mismatch.
    pub fn validate(&self) -> (r: Result<(), TreasuryError>)
        ensures
            r == match self.violation() {
                Some(e) => Err::<(), TreasuryError>(e),
                None => Ok::<(), TreasuryError>(()),
            },
    {
        if !self.vault.authority.same(&self.authority) {
            Err(TreasuryError::Unauthorized)
        } else if !self.withdrawal_request.vault.same(&self.vault_key) {
            Err(TreasuryError::InvalidVaultAccount)
        } else {
            Ok(())
        }
    }
}

/// Decides a cancellation at time `now` on accounts that were validated. On
/// success the request is to be closed and the event emitted; no balance and
/// no total changes.
pub fn handle_cancel_withdrawal(ctx: &CancelWithdrawal, now: i64) -> (r: Result<
    WithdrawalCancelledEvent,
    TreasuryError,
>)
    ensures
        r == ctx.handled(now),
{
    if now > ctx.withdrawal_request.expires_at {
        Ok(
            WithdrawalCancelledEvent {
                vault: ctx.vault_key,
                user: ctx.user,
                amount: ctx.withdrawal_request.amount,
                timestamp: now,
            },
        )
    } else {
        Err(TreasuryError::WithdrawalNotExpired)
    }
}

} // verus!
