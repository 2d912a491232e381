//! What holds of the operations whatever their inputs: the sums that the
//! totals keep, the effect of a pause, the two sides of an expiry, and the
//! life of a request's slot.
use vstd::prelude::*;
use crate::errors::TreasuryError;
use crate::identity::Identity;
use crate::instructions::cancel_withdrawal::CancelWithdrawal;
use crate::instructions::claim_withdrawal::ClaimWithdrawal;
use crate::instructions::create_withdrawal::CreateWithdrawal;
use crate::instructions::deposit::Deposit;
use crate::instructions::payout::Payout;
use crate::instructions::set_paused::SetPaused;
use crate::ledger::{Ledger, OperationError};
use crate::program::{
    cancel_withdrawal_result, create_withdrawal_result, deposit_result, payout_result,
    set_paused_result,
};
use crate::state::{Mint, TokenAccount, TreasuryVault};

verus! {

/// The accounts of `ctx` with `vault` as the vault record.
pub open spec fn deposit_on(ctx: Deposit, vault: TreasuryVault) -> Deposit {
    Deposit { vault, ..ctx }
}

/// The vault record after the deposit calls `calls`, each an amount and a
/// time, were made one after the other on the accounts of `ctx`. A refused
/// call leaves the record as it was.
pub open spec fn after_deposits(ctx: Deposit, calls: Seq<(u64, i64)>) -> TreasuryVault
    decreases calls.len(),
{
    if calls.len() == 0 {
        ctx.vault
    } else {
        let before = after_deposits(ctx, calls.drop_last());
        match deposit_on(ctx, before).outcome(calls.last().0, calls.last().1) {
            Ok((vault, _, _)) => vault,
            Err(_) => before,
        }
    }
}

/// The sum of the amounts of those calls of `calls` that were accepted.
pub open spec fn accepted_amount(ctx: Deposit, calls: Seq<(u64, i64)>) -> int
    decreases calls.len(),
{
    if calls.len() == 0 {
        0
    } else {
        let before = after_deposits(ctx, calls.drop_last());
        accepted_amount(ctx, calls.drop_last()) + (if deposit_on(ctx, before).outcome(
            calls.last().0,
            calls.last().1,
        ) is Ok {
            calls.last().0 as int
        } else {
            0
        })
    }
}

/// The number of those calls of `calls` that were accepted.
pub open spec fn accepted_calls(ctx: Deposit, calls: Seq<(u64, i64)>) -> int
    decreases calls.len(),
{
    if calls.len() == 0 {
        0
    } else {
        let before = after_deposits(ctx, calls.drop_last());
        accepted_calls(ctx, calls.drop_last()) + (if deposit_on(ctx, before).outcome(
            calls.last().0,
            calls.last().1,
        ) is Ok {
            1int
        } else {
            0
        })
    }
}

/// After any sequence of deposit calls the total deposited has grown by the
/// sum of the accepted amounts and the deposit count by the number of
/// accepted calls; nothing else but the time of the last deposit has changed.
pub proof fn lemma_deposits_add_up(ctx: Deposit, calls: Seq<(u64, i64)>)
    ensures
        after_deposits(ctx, calls).total_deposited == ctx.vault.total_deposited + accepted_amount(
            ctx,
            calls,
        ),
        after_deposits(ctx, calls).deposit_count == ctx.vault.deposit_count + accepted_calls(
            ctx,
            calls,
        ),
        after_deposits(ctx, calls).succeeds(&ctx.vault),
        after_deposits(ctx, calls).total_paid_out == ctx.vault.total_paid_out,
        after_deposits(ctx, calls).payout_count == ctx.vault.payout_count,
        after_deposits(ctx, calls).paused == ctx.vault.paused,
    decreases calls.len(),
{
    if calls.len() > 0 {
        lemma_deposits_add_up(ctx, calls.drop_last());
    }
}

/// Every operation that writes a vault record keeps its configuration and
/// lets no total and no count go down.
pub proof fn lemma_totals_never_decrease(
    deposit: Deposit,
    payout: Payout,
    claim: ClaimWithdrawal,
    pause: SetPaused,
    amount: u64,
    paused: bool,
    now: i64,
)
    ensures
        deposit.outcome(amount, now) matches Ok((vault, _, _)) ==> vault.succeeds(&deposit.vault),
        payout.outcome(amount, now) matches Ok((vault, _, _)) ==> vault.succeeds(&payout.vault),
        claim.outcome(now) matches Ok((vault, _, _)) ==> vault.succeeds(&claim.vault),
        pause.outcome(paused, now) matches Ok((vault, _)) ==> vault.succeeds(&pause.vault)
            && vault.total_deposited == pause.vault.total_deposited && vault.total_paid_out
            == pause.vault.total_paid_out,
{
}

/// A deposit into a paused vault always fails; when the caller is the
/// authority and presents the vault's mint, it fails with `VaultPaused`. The
/// store is then unchanged, as after every failure.
pub proof fn lemma_paused_vault_refuses_deposit(
    ledger: &Ledger,
    authority: Identity,
    vault_key: Identity,
    usdt_mint: Mint,
    authority_token_account: TokenAccount,
    vault_token_account: TokenAccount,
    amount: u64,
    now: i64,
)
    requires
        ledger.vault_at(vault_key) matches Some(vault) && vault.paused,
    ensures
        deposit_result(
            ledger,
            authority,
            vault_key,
            usdt_mint,
            authority_token_account,
            vault_token_account,
            amount,
            now,
        ) is Err,
        ledger.vault_at(vault_key).unwrap().authority == authority && ledger.vault_at(
            vault_key,
        ).unwrap().usdt_mint == usdt_mint.key ==> deposit_result(
            ledger,
            authority,
            vault_key,
            usdt_mint,
            authority_token_account,
            vault_token_account,
            amount,
            now,
        ).err() == Some(OperationError::Program(TreasuryError::VaultPaused)),
{
}

/// A payout from a paused vault always fails; when the caller is the
/// authority and presents the vault's payout wallet and mint, it fails with
/// `VaultPaused`. The store is then unchanged, as after every failure.
pub proof fn lemma_paused_vault_refuses_payout(
    ledger: &Ledger,
    authority: Identity,
    vault_key: Identity,
    usdt_mint: Mint,
    vault_token_account: TokenAccount,
    payout_token_account: Identity,
    payout_wallet: Identity,
    amount: u64,
    now: i64,
)
    requires
        ledger.vault_at(vault_key) matches Some(vault) && vault.paused,
    ensures
        payout_result(
            ledger,
            authority,
            vault_key,
            usdt_mint,
            vault_token_account,
            payout_token_account,
            payout_wallet,
            amount,
            now,
        ) is Err,
        ledger.vault_at(vault_key).unwrap().authority == authority && ledger.vault_at(
            vault_key,
        ).unwrap().payout_wallet == payout_wallet && ledger.vault_at(vault_key).unwrap().usdt_mint
            == usdt_mint.key ==> payout_result(
            ledger,
            authority,
            vault_key,
            usdt_mint,
            vault_token_account,
            payout_token_account,
            payout_wallet,
            amount,
            now,
        ).err() == Some(OperationError::Program(TreasuryError::VaultPaused)),
{
}

/// The creation of a request with a zero amount or a duration that is not
/// positive always fails, so no record is created.
pub proof fn lemma_create_needs_amount_and_duration(
    ledger: &Ledger,
    authority: Identity,
    vault_key: Identity,
    usdt_mint: Mint,
    vault_token_account: TokenAccount,
    user: Identity,
    bump: u8,
    amount: u64,
    expires_in: i64,
    now: i64,
)
    requires
        amount == 0 || expires_in <= 0,
    ensures
        create_withdrawal_result(
            ledger,
            authority,
            vault_key,
            usdt_mint,
            vault_token_account,
            user,
            bump,
            amount,
            expires_in,
            now,
        ) is Err,
{
}

/// A claim is in time up to and including the moment of expiry and late
/// from the next moment on: on valid accounts it fails with
/// `WithdrawalExpired` exactly when `now` is past the expiry, and otherwise
/// succeeds exactly when the balance covers the amount and the totals do not
/// wrap.
pub proof fn lemma_claim_deadline(ctx: ClaimWithdrawal, now: i64)
    requires
        ctx.violation() is None,
    ensures
        now > ctx.withdrawal_request.expires_at <==> ctx.outcome(now).err() == Some(
            TreasuryError::WithdrawalExpired,
        ),
        now <= ctx.withdrawal_request.expires_at ==> (ctx.outcome(now) is Ok <==> (
        ctx.vault_token_account.amount >= ctx.withdrawal_request.amount && ctx.vault.can_debit(
            ctx.withdrawal_request.amount,
        ))),
{
}

/// A cancellation is early up to and including the moment of expiry and in
/// time from the next moment on: on valid accounts it succeeds exactly when
/// `now` is past the expiry and fails with `WithdrawalNotExpired` otherwise.
pub proof fn lemma_cancel_deadline(ctx: CancelWithdrawal, now: i64)
    requires
        ctx.violation() is None,
    ensures
        now > ctx.withdrawal_request.expires_at <==> ctx.outcome(now) is Ok,
        now <= ctx.withdrawal_request.expires_at <==> ctx.outcome(now).err() == Some(
            TreasuryError::WithdrawalNotExpired,
        ),
{
}

/// Once a request was claimed or cancelled, which takes it out of the store,
/// its vault and user hold no request, and a creation for the same pair is
/// decided by the accounts and the amounts alone.
pub proof fn lemma_closed_request_frees_slot(
    before: &Ledger,
    after: &Ledger,
    authority: Identity,
    vault_key: Identity,
    usdt_mint: Mint,
    vault_token_account: TokenAccount,
    user: Identity,
    bump: u8,
    amount: u64,
    expires_in: i64,
    now: i64,
)
    requires
        after.request_map() == before.request_map().remove((vault_key, user)),
    ensures
        after.request_at(vault_key, user) is None,
        forall|vault: Identity, other: Identity|
            vault != vault_key || other != user ==> after.request_at(vault, other)
                == before.request_at(vault, other),
        after.vault_at(vault_key) matches Some(vault) && (CreateWithdrawal {
            authority,
            vault_key,
            vault,
            usdt_mint,
            vault_token_account,
            user,
            bump,
        }).outcome(amount, expires_in, now) is Ok ==> create_withdrawal_result(
            after,
            authority,
            vault_key,
            usdt_mint,
            vault_token_account,
            user,
            bump,
            amount,
            expires_in,
            now,
        ) is Ok,
{
}

/// While a request of a vault for a user is live, the creation of another
/// one for the same pair fails, and the store stays as it is; where every
/// other check passes, the failure is `AccountAlreadyExists`.
pub proof fn lemma_live_request_blocks_create(
    ledger: &Ledger,
    authority: Identity,
    vault_key: Identity,
    usdt_mint: Mint,
    vault_token_account: TokenAccount,
    user: Identity,
    bump: u8,
    amount: u64,
    expires_in: i64,
    now: i64,
)
    requires
        ledger.request_at(vault_key, user) is Some,
    ensures
        create_withdrawal_result(
            ledger,
            authority,
            vault_key,
            usdt_mint,
            vault_token_account,
            user,
            bump,
            amount,
            expires_in,
            now,
        ) is Err,
        ledger.vault_at(vault_key) matches Some(vault) && (CreateWithdrawal {
            authority,
            vault_key,
            vault,
            usdt_mint,
            vault_token_account,
            user,
            bump,
        }).outcome(amount, expires_in, now) is Ok ==> create_withdrawal_result(
            ledger,
            authority,
            vault_key,
            usdt_mint,
            vault_token_account,
            user,
            bump,
            amount,
            expires_in,
            now,
        ).err() == Some(OperationError::AccountAlreadyExists),
{
}

/// A caller who is not the stored authority of the vault is refused with
/// `Unauthorized` by every operation that is reserved to the authority,
/// whatever else it presents.
pub proof fn lemma_stranger_is_unauthorized(
    ledger: &Ledger,
    caller: Identity,
    vault_key: Identity,
    usdt_mint: Mint,
    caller_token_account: TokenAccount,
    vault_token_account: TokenAccount,
    payout_token_account: Identity,
    payout_wallet: Identity,
    user: Identity,
    bump: u8,
    amount: u64,
    expires_in: i64,
    paused: bool,
    now: i64,
)
    requires
        ledger.vault_at(vault_key) matches Some(vault) && vault.authority != caller,
    ensures
        set_paused_result(ledger, caller, vault_key, paused, now).err() == Some(
            OperationError::Program(TreasuryError::Unauthorized),
        ),
        deposit_result(
            ledger,
            caller,
            vault_key,
            usdt_mint,
            caller_token_account,
            vault_token_account,
            amount,
            now,
        ).err() == Some(OperationError::Program(TreasuryError::Unauthorized)),
        payout_result(
            ledger,
            caller,
            vault_key,
            usdt_mint,
            vault_token_account,
            payout_token_account,
            payout_wallet,
            amount,
            now,
        ).err() == Some(OperationError::Program(TreasuryError::Unauthorized)),
        create_withdrawal_result(
            ledger,
            caller,
            vault_key,
            usdt_mint,
            vault_token_account,
            user,
            bump,
            amount,
            expires_in,
            now,
        ).err() == Some(OperationError::Program(TreasuryError::Unauthorized)),
        ledger.request_at(vault_key, user) is Some ==> cancel_withdrawal_result(
            ledger,
            caller,
            vault_key,
            user,
            now,
        ).err() == Some(OperationError::Program(TreasuryError::Unauthorized)),
{
}

/// The accounts of `ctx` with the pause flag of its vault set to `paused`.
pub open spec fn claim_with_pause(ctx: ClaimWithdrawal, paused: bool) -> ClaimWithdrawal {
    ClaimWithdrawal { vault: TreasuryVault { paused, ..ctx.vault }, ..ctx }
}

/// A pause suspends deposits and payouts only: whether a request is
/// created, claimed or cancelled, and with which failure it is refused, does
/// not depend on the pause flag.
pub proof fn lemma_pause_does_not_gate_requests(
    create: CreateWithdrawal,
    claim: ClaimWithdrawal,
    cancel: CancelWithdrawal,
    paused: bool,
    amount: u64,
    expires_in: i64,
    now: i64,
)
    ensures
        (CreateWithdrawal { vault: TreasuryVault { paused, ..create.vault }, ..create }).outcome(
            amount,
            expires_in,
            now,
        ) == create.outcome(amount, expires_in, now),
        (CancelWithdrawal { vault: TreasuryVault { paused, ..cancel.vault }, ..cancel }).outcome(
            now,
        ) == cancel.outcome(now),
        claim_with_pause(claim, paused).outcome(now).err() == claim.outcome(now).err(),
        claim.outcome(now) matches Ok((vault, transfer, event)) ==> claim_with_pause(
            claim,
            paused,
        ).outcome(now) == Ok::<_, TreasuryError>(
            (TreasuryVault { paused, ..vault }, transfer, event),
        ),
{
}

/// The creation of a request looks at the vault's balance as it stands and
/// at the pair's own slot, and at nothing else in the store: amounts that
/// are promised to other users are not set aside, so pending requests can
/// add up to more than the vault holds.
pub proof fn lemma_create_ignores_other_requests(
    one: &Ledger,
    other: &Ledger,
    authority: Identity,
    vault_key: Identity,
    usdt_mint: Mint,
    vault_token_account: TokenAccount,
    user: Identity,
    bump: u8,
    amount: u64,
    expires_in: i64,
    now: i64,
)
    requires
        one.vault_at(vault_key) == other.vault_at(vault_key),
        one.request_at(vault_key, user) is Some <==> other.request_at(vault_key, user) is Some,
    ensures
        create_withdrawal_result(
            one,
            authority,
            vault_key,
            usdt_mint,
            vault_token_account,
            user,
            bump,
            amount,
            expires_in,
            now,
        ) == create_withdrawal_result(
            other,
            authority,
            vault_key,
            usdt_mint,
            vault_token_account,
            user,
            bump,
            amount,
            expires_in,
            now,
        ),
{
}

} // verus!
