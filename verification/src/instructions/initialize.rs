//! Creation of a vault.
use vstd::prelude::*;
use crate::events::VaultInitialized;
use crate::identity::Identity;
use crate::state::{Mint, TokenAccount, TreasuryVault};

verus! {

/// What the creation of a vault is given.
#[derive(Clone, Copy, Debug, PartialEq, Eq)]
pub struct Initialize {
    /// The caller, whose signature the ledger has verified: the vault's
    /// authority from now on.
    pub authority: Identity,
    /// The address of the new vault record.
    pub vault_key: Identity,
    /// The mint of the asset that the vault will hold.
    pub usdt_mint: Mint,
    /// The newly provisioned asset-holding account that the vault owns.
    pub vault_token_account: TokenAccount,
    /// The wallet that direct payouts will go to.
    pub payout_wallet: Identity,
    /// The nonce with which the vault's address was derived.
    pub bump: u8,
}

impl Initialize {
    /// The record of a vault that was just created: the four identities as
    /// given, every total, count and timestamp zero, not paused.
    pub open spec fn fresh_vault(&self) -> TreasuryVault {
        TreasuryVault {
            authority: self.authority,
            payout_wallet: self.payout_wallet,
            usdt_mint: self.usdt_mint.key,
            vault_token_account: self.vault_token_account.key,
            total_deposited: 0,
            total_paid_out: 0,
            deposit_count: 0,
            payout_count: 0,
            last_deposit_at: 0,
            last_payout_at: 0,
            bump: self.bump,
            paused: false,
        }
    }

    /// The event of a creation at `now`.
    pub open spec fn event(&self, now: i64) -> VaultInitialized {
        VaultInitialized {
            vault: self.vault_key,
            authority: self.authority,
            payout_wallet: self.payout_wallet,
            usdt_mint: self.usdt_mint.key,
            timestamp: now,
        }
    }
}

/// Populates the record of a new vault and returns it with the event to
/// emit. There is no failure of its own.
pub fn handler(ctx: &Initialize, now: i64) -> (r: (TreasuryVault, VaultInitialized))
    ensures
        r.0 == ctx.fresh_vault(),
        r.1 == ctx.event(now),
{
    let vault = TreasuryVault {
        authority: ctx.authority,
        payout_wallet: ctx.payout_wallet,
        usdt_mint: ctx.usdt_mint.key,
        vault_token_account: ctx.vault_token_account.key,
        total_deposited: 0,
        total_paid_out: 0,
        deposit_count: 0,
        payout_count: 0,
        last_deposit_at: 0,
        last_payout_at: 0,
        bump: ctx.bump,
        paused: false,
    };
    let event = VaultInitialized {
        vault: ctx.vault_key,
        authority: vault.authority,
        payout_wallet: vault.payout_wallet,
        usdt_mint: vault.usdt_mint,
        timestamp: now,
    };
    (vault, event)
}

} // verus!
