//! Pause and resume: the authority suspends deposits and payouts.
use vstd::prelude::*;
use crate::errors::TreasuryError;
use crate::events::VaultPausedEvent;
use crate::identity::Identity;
use crate::state::TreasuryVault;

verus! {

/// What a change of the pause state is given.
#[derive(Clone, Copy, Debug, PartialEq, Eq)]
pub struct SetPaused {
    /// The caller, whose signature the ledger has verified.
    pub authority: Identity,
    /// The address of the vault record.
    pub vault_key: Identity,
    /// The vault record.
    pub vault: TreasuryVault,
}

impl SetPaused {
    /// The first check on the accounts that fails, if any.
    pub open spec fn violation(&self) -> Option<TreasuryError> {
        if self.vault.authority != self.authority {
            Some(TreasuryError::Unauthorized)
        } else {
            None
        }
    }

    /// The vault record and the event after the flag was set to `paused`.
    pub open spec fn handled(&self, paused: bool, now: i64) -> (TreasuryVault, VaultPausedEvent) {
        (
            TreasuryVault { paused, ..self.vault },
            VaultPausedEvent { vault: self.vault_key, paused, timestamp: now },
        )
    }

    /// The whole operation: the check on the caller, then the handler.
    pub open spec fn outcome(&self, paused: bool, now: i64) -> Result<
        (TreasuryVault, VaultPausedEvent),
        TreasuryError,
    > {
        match self.violation() {
            Some(e) => Err(e),
            None => Ok(self.handled(paused, now)),
        }
    }

    /// Checks that the caller is the vault's authority.
    pub fn validate(&self) -> (r: Result<(), TreasuryError>)
        ensures
            r == match self.violation() {
                Some(e) => Err::<(), TreasuryError>(e),
                None => Ok::<(), TreasuryError>(()),
            },
    {
        if !self.vault.authority.same(&self.authority) {
            Err(TreasuryError::Unauthorized)
        } else {
            Ok(())
        }
    }
}

/// Sets the pause flag of the vault record in `ctx` to `paused` and returns
/// the event to emit. Nothing else in the record changes.
pub fn handler(ctx: &mut SetPaused, paused: bool, now: i64) -> (event: VaultPausedEvent)
    ensures
        *final(ctx) == (SetPaused { vault: old(ctx).handled(paused, now).0, ..*old(ctx) }),
        event == old(ctx).handled(paused, now).1,
{
    ctx.vault.paused = paused;
    VaultPausedEvent { vault: ctx.vault_key, paused, timestamp: now }
}

} // verus!
