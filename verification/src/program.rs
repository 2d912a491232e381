//! The seven operations on the record store. Each one locates the records it
//! names, checks the accounts, decides, and writes back only when everything
//! has passed: a refused operation leaves the store exactly as it was.
use vstd::prelude::*;
use crate::events::{
    DepositEvent, PayoutEvent, VaultInitialized, VaultPausedEvent, WithdrawalCancelledEvent,
    WithdrawalClaimedEvent, WithdrawalCreatedEvent,
};
use crate::identity::Identity;
use crate::instructions::cancel_withdrawal::{handle_cancel_withdrawal, CancelWithdrawal};
use crate::instructions::claim_withdrawal::{handle_claim_withdrawal, ClaimWithdrawal};
use crate::instructions::create_withdrawal::{handle_create_withdrawal, CreateWithdrawal};
use crate::instructions::deposit::{handle_deposit, Deposit};
use crate::instructions::initialize::Initialize;
use crate::instructions::payout::Payout;
use crate::instructions::set_paused::SetPaused;
use crate::ledger::{Ledger, OperationError};
use crate::state::{Mint, TokenAccount, Transfer, TreasuryVault, WithdrawalRequest};

verus! {

/// Whether a vault can be created for `accounts`: neither its address nor
/// its authority has one yet.
pub open spec fn initialize_admitted(ledger: &Ledger, accounts: Initialize) -> bool {
    ledger.vault_at(accounts.vault_key) is None && !ledger.holds_authority(accounts.authority)
}

/// Creates the vault of `accounts.authority` at `accounts.vault_key`. Fails
/// only when the address or the authority already has a vault.
pub fn initialize(ledger: &mut Ledger, accounts: Initialize, now: i64) -> (r: Result<
    VaultInitialized,
    OperationError,
>)
    requires
        old(ledger).wf(),
    ensures
        final(ledger).wf(),
        final(ledger).follows(old(ledger)),
        final(ledger).request_map() == old(ledger).request_map(),
        initialize_admitted(old(ledger), accounts) ==> r == Ok::<VaultInitialized, OperationError>(
            accounts.event(now),
        ) && final(ledger).vault_map() == old(ledger).vault_map().insert(
            accounts.vault_key,
            accounts.fresh_vault(),
        ),
        !initialize_admitted(old(ledger), accounts) ==> r == Err::<
            VaultInitialized,
            OperationError,
        >(OperationError::AccountAlreadyExists) && *final(ledger) == *old(ledger),
{
    let (vault, event) = crate::instructions::initialize::handler(&accounts, now);
    if ledger.insert_vault(accounts.vault_key, vault) {
        Ok(event)
    } else {
        Err(OperationError::AccountAlreadyExists)
    }
}

/// What `set_paused` decides: the new vault record and the event, or the
/// failure.
pub open spec fn set_paused_result(
    ledger: &Ledger,
    authority: Identity,
    vault_key: Identity,
    paused: bool,
    now: i64,
) -> Result<(TreasuryVault, VaultPausedEvent), OperationError> {
    match ledger.vault_at(vault_key) {
        None => Err(OperationError::AccountNotFound),
        Some(vault) => match (SetPaused { authority, vault_key, vault }).outcome(paused, now) {
            Err(e) => Err(OperationError::Program(e)),
            Ok(done) => Ok(done),
        },
    }
}

/// Pauses or resumes the vault at `vault_key` on behalf of the caller
/// `authority`.
pub fn set_paused(
    ledger: &mut Ledger,
    authority: Identity,
    vault_key: Identity,
    paused: bool,
    now: i64,
) -> (r: Result<VaultPausedEvent, OperationError>)
    requires
        old(ledger).wf(),
    ensures
        final(ledger).wf(),
        final(ledger).follows(old(ledger)),
        final(ledger).request_map() == old(ledger).request_map(),
        match set_paused_result(old(ledger), authority, vault_key, paused, now) {
            Err(e) => {
                &&& r == Err::<VaultPausedEvent, OperationError>(e)
                &&& *final(ledger) == *old(ledger)
            },
            Ok((vault, event)) => {
                &&& r == Ok::<VaultPausedEvent, OperationError>(event)
                &&& final(ledger).vault_map() == old(ledger).vault_map().insert(vault_key, vault)
            },
        },
{
    let vault = match ledger.vault(&vault_key) {
        Some(v) => v,
        None => { return Err(OperationError::AccountNotFound); },
    };
    let mut ctx = SetPaused { authority, vault_key, vault };
    match ctx.validate() {
        Err(e) => { return Err(OperationError::Program(e)); },
        Ok(()) => {},
    }
    let event = crate::instructions::set_paused::handler(&mut ctx, paused, now);
    ledger.replace_vault(vault_key, ctx.vault);
    Ok(event)
}

/// What `deposit` decides: the new vault record with the transfer and the
/// event, or the failure.
pub open spec fn deposit_result(
    ledger: &Ledger,
    authority: Identity,
    vault_key: Identity,
    usdt_mint: Mint,
    authority_token_account: TokenAccount,
    vault_token_account: TokenAccount,
    amount: u64,
    now: i64,
) -> Result<(TreasuryVault, Transfer, DepositEvent), OperationError> {
    match ledger.vault_at(vault_key) {
        None => Err(OperationError::AccountNotFound),
        Some(vault) => match (Deposit {
            authority,
            vault_key,
            vault,
            usdt_mint,
            authority_token_account,
            vault_token_account,
        }).outcome(amount, now) {
            Err(e) => Err(OperationError::Program(e)),
            Ok(done) => Ok(done),
        },
    }
}

/// Accepts a deposit of `amount` into the vault at `vault_key` from the
/// caller `authority`. On success the totals of the vault have grown and the
/// result names the transfer to carry out.
pub fn deposit(
    ledger: &mut Ledger,
    authority: Identity,
    vault_key: Identity,
    usdt_mint: Mint,
    authority_token_account: TokenAccount,
    vault_token_account: TokenAccount,
    amount: u64,
    now: i64,
) -> (r: Result<(Transfer, DepositEvent), OperationError>)
    requires
        old(ledger).wf(),
    ensures
        final(ledger).wf(),
        final(ledger).follows(old(ledger)),
        final(ledger).request_map() == old(ledger).request_map(),
        match deposit_result(
            old(ledger),
            authority,
            vault_key,
            usdt_mint,
            authority_token_account,
            vault_token_account,
            amount,
            now,
        ) {
            Err(e) => {
                &&& r == Err::<(Transfer, DepositEvent), OperationError>(e)
                &&& *final(ledger) == *old(ledger)
            },
            Ok((vault, transfer, event)) => {
                &&& r == Ok::<(Transfer, DepositEvent), OperationError>((transfer, event))
                &&& final(ledger).vault_map() == old(ledger).vault_map().insert(vault_key, vault)
            },
        },
{
    let vault = match ledger.vault(&vault_key) {
        Some(v) => v,
        None => { return Err(OperationError::AccountNotFound); },
    };
    let mut ctx = Deposit {
        authority,
        vault_key,
        vault,
        usdt_mint,
        authority_token_account,
        vault_token_account,
    };
    match ctx.validate() {
        Err(e) => { return Err(OperationError::Program(e)); },
        Ok(()) => {},
    }
    match handle_deposit(&mut ctx, amount, now) {
        Err(e) => Err(OperationError::Program(e)),
        Ok(done) => {
            ledger.replace_vault(vault_key, ctx.vault);
            Ok(done)
        },
    }
}

/// What `payout` decides: the new vault record with the transfer and the
/// event, or the failure.
pub open spec fn payout_result(
    ledger: &Ledger,
    authority: Identity,
    vault_key: Identity,
    usdt_mint: Mint,
    vault_token_account: TokenAccount,
    payout_token_account: Identity,
    payout_wallet: Identity,
    amount: u64,
    now: i64,
) -> Result<(TreasuryVault, Transfer, PayoutEvent), OperationError> {
    match ledger.vault_at(vault_key) {
        None => Err(OperationError::AccountNotFound),
        Some(vault) => match (Payout {
            authority,
            vault_key,
            vault,
            usdt_mint,
            vault_token_account,
            payout_token_account,
            payout_wallet,
        }).outcome(amount, now) {
            Err(e) => Err(OperationError::Program(e)),
            Ok(done) => Ok(done),
        },
    }
}

/// Pays `amount` out of the vault at `vault_key` to its payout wallet on
/// behalf of the caller `authority`. On success the totals of the vault have
/// grown and the result names the transfer to carry out.
pub fn payout(
    ledger: &mut Ledger,
    authority: Identity,
    vault_key: Identity,
    usdt_mint: Mint,
    vault_token_account: TokenAccount,
    payout_token_account: Identity,
    payout_wallet: Identity,
    amount: u64,
    now: i64,
) -> (r: Result<(Transfer, PayoutEvent), OperationError>)
    requires
        old(ledger).wf(),
    ensures
        final(ledger).wf(),
        final(ledger).follows(old(ledger)),
        final(ledger).request_map() == old(ledger).request_map(),
        match payout_result(
            old(ledger),
            authority,
            vault_key,
            usdt_mint,
            vault_token_account,
            payout_token_account,
            payout_wallet,
            amount,
            now,
        ) {
            Err(e) => {
                &&& r == Err::<(Transfer, PayoutEvent), OperationError>(e)
                &&& *final(ledger) == *old(ledger)
            },
            Ok((vault, transfer, event)) => {
                &&& r == Ok::<(Transfer, PayoutEvent), OperationError>((transfer, event))
                &&& final(ledger).vault_map() == old(ledger).vault_map().insert(vault_key, vault)
            },
        },
{
    let vault = match ledger.vault(&vault_key) {
        Some(v) => v,
        None => { return Err(OperationError::AccountNotFound); },
    };
    let mut ctx = Payout {
        authority,
        vault_key,
        vault,
        usdt_mint,
        vault_token_account,
        payout_token_account,
        payout_wallet,
    };
    match ctx.validate() {
        Err(e) => { return Err(OperationError::Program(e)); },
        Ok(()) => {},
    }
    match crate::instructions::payout::handler(&mut ctx, amount, now) {
        Err(e) => Err(OperationError::Program(e)),
        Ok(done) => {
            ledger.replace_vault(vault_key, ctx.vault);
            Ok(done)
        },
    }
}

/// What `create_withdrawal` decides: the request to store with its event, or
/// the failure. A pair of vault and user that still has a live request is
/// refused after every other check has passed.
pub open spec fn create_withdrawal_result(
    ledger: &Ledger,
    authority: Identity,
    vault_key: Identity,
    usdt_mint: Mint,
    vault_token_account: TokenAccount,
    user: Identity,
    bump: u8,
    amount: u64,
    expires_in: i64,
    now: i64,
) -> Result<(WithdrawalRequest, WithdrawalCreatedEvent), OperationError> {
    match ledger.vault_at(vault_key) {
        None => Err(OperationError::AccountNotFound),
        Some(vault) => match (CreateWithdrawal {
            authority,
            vault_key,
            vault,
            usdt_mint,
            vault_token_account,
            user,
            bump,
        }).outcome(amount, expires_in, now) {
            Err(e) => Err(OperationError::Program(e)),
            Ok(done) => if ledger.request_at(vault_key, user) is Some {
                Err(OperationError::AccountAlreadyExists)
            } else {
                Ok(done)
            },
        },
    }
}

/// Creates a withdrawal request of `amount` for `user` against the vault at
/// `vault_key`, on behalf of the caller `authority`, claimable until
/// `now + expires_in`. On success the request is stored; no total changes.
pub fn create_withdrawal(
    ledger: &mut Ledger,
    authority: Identity,
    vault_key: Identity,
    usdt_mint: Mint,
    vault_token_account: TokenAccount,
    user: Identity,
    bump: u8,
    amount: u64,
    expires_in: i64,
    now: i64,
) -> (r: Result<WithdrawalCreatedEvent, OperationError>)
    requires
        old(ledger).wf(),
    ensures
        final(ledger).wf(),
        final(ledger).follows(old(ledger)),
        final(ledger).vault_map() == old(ledger).vault_map(),
        match create_withdrawal_result(
            old(ledger),
            authority,
            vault_key,
            usdt_mint,
            vault_token_account,
            user,
            bump,
            amount,
            expires_in,
            now,
        ) {
            Err(e) => {
                &&& r == Err::<WithdrawalCreatedEvent, OperationError>(e)
                &&& *final(ledger) == *old(ledger)
            },
            Ok((request, event)) => {
                &&& r == Ok::<WithdrawalCreatedEvent, OperationError>(event)
                &&& final(ledger).request_map() == old(ledger).request_map().insert(
                    (vault_key, user),
                    request,
                )
            },
        },
{
    let vault = match ledger.vault(&vault_key) {
        Some(v) => v,
        None => { return Err(OperationError::AccountNotFound); },
    };
    let ctx = CreateWithdrawal {
        authority,
        vault_key,
        vault,
        usdt_mint,
        vault_token_account,
        user,
        bump,
    };
    match ctx.validate() {
        Err(e) => { return Err(OperationError::Program(e)); },
        Ok(()) => {},
    }
    match handle_create_withdrawal(&ctx, amount, expires_in, now) {
        Err(e) => Err(OperationError::Program(e)),
        Ok((request, event)) => {
            if ledger.insert_request(request) {
                Ok(event)
            } else {
                Err(OperationError::AccountAlreadyExists)
            }
        },
    }
}

/// What `claim_withdrawal` decides: the new vault record with the transfer
/// and the event, or the failure.
pub open spec fn claim_withdrawal_result(
    ledger: &Ledger,
    user: Identity,
    authority: Identity,
    vault_key: Identity,
    usdt_mint: Mint,
    vault_token_account: TokenAccount,
    user_token_account: Identity,
    now: i64,
) -> Result<(TreasuryVault, Transfer, WithdrawalClaimedEvent), OperationError> {
    match (ledger.vault_at(vault_key), ledger.request_at(vault_key, user)) {
        (Some(vault), Some(withdrawal_request)) => match (ClaimWithdrawal {
            user,
            authority,
            vault_key,
            vault,
            withdrawal_request,
            usdt_mint,
            vault_token_account,
            user_token_account,
        }).outcome(now) {
            Err(e) => Err(OperationError::Program(e)),
            Ok(done) => Ok(done),
        },
        _ => Err(OperationError::AccountNotFound),
    }
}

/// Claims the live request that the vault at `vault_key` holds for the
/// caller `user`. On success the totals of the vault have grown, the request
/// is gone and the result names the transfer to carry out.
pub fn claim_withdrawal(
    ledger: &mut Ledger,
    user: Identity,
    authority: Identity,
    vault_key: Identity,
    usdt_mint: Mint,
    vault_token_account: TokenAccount,
    user_token_account: Identity,
    now: i64,
) -> (r: Result<(Transfer, WithdrawalClaimedEvent), OperationError>)
    requires
        old(ledger).wf(),
    ensures
        final(ledger).wf(),
        final(ledger).follows(old(ledger)),
        match claim_withdrawal_result(
            old(ledger),
            user,
            authority,
            vault_key,
            usdt_mint,
            vault_token_account,
            user_token_account,
            now,
        ) {
            Err(e) => {
                &&& r == Err::<(Transfer, WithdrawalClaimedEvent), OperationError>(e)
                &&& *final(ledger) == *old(ledger)
            },
            Ok((vault, transfer, event)) => {
                &&& r == Ok::<(Transfer, WithdrawalClaimedEvent), OperationError>((transfer, event))
                &&& final(ledger).vault_map() == old(ledger).vault_map().insert(vault_key, vault)
                &&& final(ledger).request_map() == old(ledger).request_map().remove(
                    (vault_key, user),
                )
            },
        },
{
    let vault = match ledger.vault(&vault_key) {
        Some(v) => v,
        None => { return Err(OperationError::AccountNotFound); },
    };
    let withdrawal_request = match ledger.request(&vault_key, &user) {
        Some(q) => q,
        None => { return Err(OperationError::AccountNotFound); },
    };
    let mut ctx = ClaimWithdrawal {
        user,
        authority,
        vault_key,
        vault,
        withdrawal_request,
        usdt_mint,
        vault_token_account,
        user_token_account,
    };
    match ctx.validate() {
        Err(e) => { return Err(OperationError::Program(e)); },
        Ok(()) => {},
    }
    match handle_claim_withdrawal(&mut ctx, now) {
        Err(e) => Err(OperationError::Program(e)),
        Ok(done) => {
            ledger.replace_vault(vault_key, ctx.vault);
            ledger.remove_request(vault_key, user);
            Ok(done)
        },
    }
}

/// What `cancel_withdrawal` decides: the event, or the failure.
pub open spec fn cancel_withdrawal_result(
    ledger: &Ledger,
    authority: Identity,
    vault_key: Identity,
    user: Identity,
    now: i64,
) -> Result<WithdrawalCancelledEvent, OperationError> {
    match (ledger.vault_at(vault_key), ledger.request_at(vault_key, user)) {
        (Some(vault), Some(withdrawal_request)) => match (CancelWithdrawal {
            authority,
            vault_key,
            vault,
            user,
            withdrawal_request,
        }).outcome(now) {
            Err(e) => Err(OperationError::Program(e)),
            Ok(event) => Ok(event),
        },
        _ => Err(OperationError::AccountNotFound),
    }
}

/// Cancels the expired request that the vault at `vault_key` holds for
/// `user`, on behalf of the caller `authority`. On success the request is
/// gone; no total changes.
pub fn cancel_withdrawal(
    ledger: &mut Ledger,
    authority: Identity,
    vault_key: Identity,
    user: Identity,
    now: i64,
) -> (r: Result<WithdrawalCancelledEvent, OperationError>)
    requires
        old(ledger).wf(),
    ensures
        final(ledger).wf(),
        final(ledger).follows(old(ledger)),
        final(ledger).vault_map() == old(ledger).vault_map(),
        match cancel_withdrawal_result(old(ledger), authority, vault_key, user, now) {
            Err(e) => {
                &&& r == Err::<WithdrawalCancelledEvent, OperationError>(e)
                &&& *final(ledger) == *old(ledger)
            },
            Ok(event) => {
                &&& r == Ok::<WithdrawalCancelledEvent, OperationError>(event)
                &&& final(ledger).request_map() == old(ledger).request_map().remove(
                    (vault_key, user),
                )
            },
        },
{
    let vault = match ledger.vault(&vault_key) {
        Some(v) => v,
        None => { return Err(OperationError::AccountNotFound); },
    };
    let withdrawal_request = match ledger.request(&vault_key, &user) {
        Some(q) => q,
        None => { return Err(OperationError::AccountNotFound); },
    };
    let ctx = CancelWithdrawal { authority, vault_key, vault, user, withdrawal_request };
    match ctx.validate() {
        Err(e) => { return Err(OperationError::Program(e)); },
        Ok(()) => {},
    }
    match handle_cancel_withdrawal(&ctx, now) {
        Err(e) => Err(OperationError::Program(e)),
        Ok(event) => {
            ledger.remove_request(vault_key, user);
            Ok(event)
        },
    }
}

} // verus!
