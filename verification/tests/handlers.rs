use treasury_vault::events::{DepositEvent, VaultInitialized, VaultPausedEvent};
use treasury_vault::instructions::cancel_withdrawal::{handle_cancel_withdrawal, CancelWithdrawal};
use treasury_vault::instructions::claim_withdrawal::{handle_claim_withdrawal, ClaimWithdrawal};
use treasury_vault::instructions::create_withdrawal::{handle_create_withdrawal, CreateWithdrawal};
use treasury_vault::instructions::deposit::{handle_deposit, Deposit};
use treasury_vault::instructions::initialize::Initialize;
use treasury_vault::instructions::payout::Payout;
use treasury_vault::instructions::set_paused::SetPaused;
use treasury_vault::{
    Identity, Mint, TokenAccount, TreasuryError, TreasuryVault, WithdrawalRequest,
};

fn id(n: u8) -> Identity {
    Identity::new([n; 32])
}

fn vault() -> TreasuryVault {
    TreasuryVault {
        authority: id(1),
        payout_wallet: id(5),
        usdt_mint: id(3),
        vault_token_account: id(4),
        total_deposited: 40,
        total_paid_out: 30,
        deposit_count: 4,
        payout_count: 3,
        last_deposit_at: 20,
        last_payout_at: 10,
        bump: 250,
        paused: false,
    }
}

fn mint() -> Mint {
    Mint { key: id(3), decimals: 6 }
}

fn tokens(key: u8, owner: u8, amount: u64) -> TokenAccount {
    TokenAccount { key: id(key), mint: id(3), owner: id(owner), amount }
}

fn request() -> WithdrawalRequest {
    WithdrawalRequest {
        vault: id(2),
        user: id(8),
        amount: 25,
        created_at: 100,
        expires_at: 200,
        bump: 9,
    }
}

fn deposit_accounts() -> Deposit {
    Deposit {
        authority: id(1),
        vault_key: id(2),
        vault: vault(),
        usdt_mint: mint(),
        authority_token_account: tokens(7, 1, 500),
        vault_token_account: tokens(4, 2, 10),
    }
}

fn claim_accounts() -> ClaimWithdrawal {
    ClaimWithdrawal {
        user: id(8),
        authority: id(1),
        vault_key: id(2),
        vault: vault(),
        withdrawal_request: request(),
        usdt_mint: mint(),
        vault_token_account: tokens(4, 2, 25),
        user_token_account: id(9),
    }
}

#[test]
fn identity_compares_bytes() {
    let mut bytes = [7u8; 32];
    let a = Identity::new(bytes);
    assert!(a.same(&id(7)));
    assert_eq!(a.to_bytes(), [7u8; 32]);
    bytes[31] = 8;
    assert!(!a.same(&Identity::new(bytes)));
    bytes[31] = 7;
    bytes[0] = 0;
    assert!(!Identity::new(bytes).same(&a));
    assert_eq!(Identity::new(bytes).to_bytes(), bytes);
}

#[test]
fn messages_name_the_failure() {
    assert_eq!(
        TreasuryError::Unauthorized.message(),
        "Unauthorized: only vault authority can perform this action",
    );
    assert_eq!(TreasuryError::InvalidMint.message(), "Invalid USDT mint address");
    assert_eq!(TreasuryError::InvalidVaultAccount.message(), "Invalid vault token account");
    assert_eq!(TreasuryError::InvalidPayoutWallet.message(), "Invalid payout wallet");
    assert_eq!(TreasuryError::VaultPaused.message(), "Vault is paused");
    assert_eq!(TreasuryError::ZeroAmount.message(), "Amount must be greater than zero");
    assert_eq!(
        TreasuryError::InsufficientBalance.message(),
        "Insufficient vault balance for payout",
    );
    assert_eq!(TreasuryError::Overflow.message(), "Arithmetic overflow");
    assert_eq!(TreasuryError::WithdrawalExpired.message(), "Withdrawal request has expired");
    assert_eq!(
        TreasuryError::WithdrawalNotExpired.message(),
        "Withdrawal has not expired yet, cannot cancel",
    );
    assert_eq!(TreasuryError::InvalidExpiration.message(), "Expiration duration must be positive");
}

#[test]
fn record_deposit_adds_or_leaves() {
    let mut v = vault();
    assert_eq!(v.record_deposit(60, 77), Ok(()));
    assert_eq!(v.total_deposited, 100);
    assert_eq!(v.deposit_count, 5);
    assert_eq!(v.last_deposit_at, 77);
    let mut full = vault();
    full.deposit_count = u64::MAX;
    let before = full;
    assert_eq!(full.record_deposit(1, 78), Err(TreasuryError::Overflow));
    assert_eq!(full, before);
}

#[test]
fn record_payout_adds_or_leaves() {
    let mut v = vault();
    assert_eq!(v.record_payout(70, 88), Ok(()));
    assert_eq!(v.total_paid_out, 100);
    assert_eq!(v.payout_count, 4);
    assert_eq!(v.last_payout_at, 88);
    assert_eq!(v.total_deposited, 40);
    let mut full = vault();
    full.total_paid_out = u64::MAX - 69;
    let before = full;
    assert_eq!(full.record_payout(70, 89), Err(TreasuryError::Overflow));
    assert_eq!(full, before);
}

#[test]
fn initialize_handler_zeroes_the_totals() {
    let accounts = Initialize {
        authority: id(1),
        vault_key: id(2),
        usdt_mint: mint(),
        vault_token_account: tokens(4, 2, 0),
        payout_wallet: id(5),
        bump: 250,
    };
    let (record, event) = treasury_vault::instructions::initialize::handler(&accounts, 123);
    assert_eq!(record.authority, id(1));
    assert_eq!(record.payout_wallet, id(5));
    assert_eq!(record.usdt_mint, id(3));
    assert_eq!(record.vault_token_account, id(4));
    assert_eq!(
        (record.total_deposited, record.total_paid_out, record.deposit_count, record.payout_count),
        (0, 0, 0, 0)
    );
    assert_eq!((record.last_deposit_at, record.last_payout_at), (0, 0));
    assert_eq!(record.bump, 250);
    assert!(!record.paused);
    assert_eq!(
        event,
        VaultInitialized {
            vault: id(2),
            authority: id(1),
            payout_wallet: id(5),
            usdt_mint: id(3),
            timestamp: 123,
        }
    );
}

#[test]
fn set_paused_handler_changes_only_the_flag() {
    let mut ctx = SetPaused { authority: id(1), vault_key: id(2), vault: vault() };
    assert_eq!(ctx.validate(), Ok(()));
    let event = treasury_vault::instructions::set_paused::handler(&mut ctx, true, 55);
    assert_eq!(event, VaultPausedEvent { vault: id(2), paused: true, timestamp: 55 });
    let mut expected = vault();
    expected.paused = true;
    assert_eq!(ctx.vault, expected);
    ctx.authority = id(9);
    assert_eq!(ctx.validate(), Err(TreasuryError::Unauthorized));
}

#[test]
fn deposit_handler_updates_the_record_in_the_accounts() {
    let mut ctx = deposit_accounts();
    assert_eq!(ctx.validate(), Ok(()));
    let (transfer, event) = handle_deposit(&mut ctx, 60, 300).unwrap();
    assert_eq!(transfer.from, id(7));
    assert_eq!(transfer.to, id(4));
    assert_eq!(transfer.authority, id(1));
    assert_eq!(transfer.amount, 60);
    assert_eq!(
        event,
        DepositEvent {
            vault: id(2),
            amount: 60,
            total_deposited: 100,
            deposit_count: 5,
            timestamp: 300,
        }
    );
    assert_eq!(ctx.vault.total_deposited, 100);
    assert_eq!(ctx.vault.deposit_count, 5);
    assert_eq!(ctx.vault.last_deposit_at, 300);
    let before = ctx;
    assert_eq!(handle_deposit(&mut ctx, 0, 301), Err(TreasuryError::ZeroAmount));
    assert_eq!(ctx, before);
}

#[test]
fn deposit_validation_reports_the_first_mismatch() {
    let mut ctx = deposit_accounts();
    ctx.vault.paused = true;
    assert_eq!(ctx.validate(), Err(TreasuryError::VaultPaused));
    ctx.usdt_mint.key = id(33);
    assert_eq!(ctx.validate(), Err(TreasuryError::InvalidMint));
    ctx.authority = id(34);
    assert_eq!(ctx.validate(), Err(TreasuryError::Unauthorized));
}

#[test]
fn payout_handler_checks_balance_before_totals() {
    let mut ctx = Payout {
        authority: id(1),
        vault_key: id(2),
        vault: vault(),
        usdt_mint: mint(),
        vault_token_account: tokens(4, 2, 1000),
        payout_token_account: id(6),
        payout_wallet: id(5),
    };
    assert_eq!(ctx.validate(), Ok(()));
    ctx.vault.total_paid_out = u64::MAX;
    let before = ctx;
    assert_eq!(
        treasury_vault::instructions::payout::handler(&mut ctx, 2000, 5),
        Err(TreasuryError::InsufficientBalance)
    );
    assert_eq!(
        treasury_vault::instructions::payout::handler(&mut ctx, 1000, 5),
        Err(TreasuryError::Overflow)
    );
    assert_eq!(ctx, before);
    ctx.vault.total_paid_out = 30;
    let (transfer, event) = treasury_vault::instructions::payout::handler(
        &mut ctx,
        1000,
        6,
    ).unwrap();
    assert_eq!(transfer.authority, id(2));
    assert_eq!(transfer.to, id(6));
    assert_eq!(event.total_paid_out, 1030);
    assert_eq!(event.payout_count, 4);
    assert_eq!(ctx.vault.last_payout_at, 6);
}

#[test]
fn create_handler_builds_the_request() {
    let ctx = CreateWithdrawal {
        authority: id(1),
        vault_key: id(2),
        vault: vault(),
        usdt_mint: mint(),
        vault_token_account: tokens(4, 2, 1000),
        user: id(8),
        bump: 9,
    };
    assert_eq!(ctx.validate(), Ok(()));
    let (made, event) = handle_create_withdrawal(&ctx, 25, 100, 100).unwrap();
    assert_eq!(made, request());
    assert_eq!(event.expires_at, 200);
    assert_eq!(event.timestamp, 100);
    assert_eq!(handle_create_withdrawal(&ctx, 25, 1, -5).unwrap().0.expires_at, -4);
    assert_eq!(handle_create_withdrawal(&ctx, 1001, 1, 0), Err(TreasuryError::InsufficientBalance));
    assert_eq!(handle_create_withdrawal(&ctx, 0, -1, 0), Err(TreasuryError::ZeroAmount));
    assert_eq!(
        handle_create_withdrawal(&ctx, 1, i64::MIN, 0),
        Err(TreasuryError::InvalidExpiration),
    );
}

#[test]
fn claim_handler_pays_the_promised_amount() {
    let mut ctx = claim_accounts();
    assert_eq!(ctx.validate(), Ok(()));
    let (transfer, event) = handle_claim_withdrawal(&mut ctx, 200).unwrap();
    assert_eq!(transfer.amount, 25);
    assert_eq!(transfer.to, id(9));
    assert_eq!(transfer.authority, id(2));
    assert_eq!(event.total_paid_out, 55);
    assert_eq!(event.payout_count, 4);
    assert_eq!(ctx.vault.total_paid_out, 55);
    assert_eq!(ctx.vault.total_deposited, 40);
}

#[test]
fn claim_handler_reports_expiry_before_balance() {
    let mut ctx = claim_accounts();
    ctx.vault_token_account.amount = 24;
    let before = ctx;
    assert_eq!(handle_claim_withdrawal(&mut ctx, 201), Err(TreasuryError::WithdrawalExpired));
    assert_eq!(handle_claim_withdrawal(&mut ctx, 200), Err(TreasuryError::InsufficientBalance));
    assert_eq!(ctx, before);
    ctx.vault_token_account.amount = 25;
    ctx.vault.payout_count = u64::MAX;
    assert_eq!(handle_claim_withdrawal(&mut ctx, 200), Err(TreasuryError::Overflow));
}

#[test]
fn claim_validation_names_user_and_vault() {
    let mut ctx = claim_accounts();
    ctx.withdrawal_request.vault = id(66);
    assert_eq!(ctx.validate(), Err(TreasuryError::InvalidVaultAccount));
    ctx.user = id(67);
    assert_eq!(ctx.validate(), Err(TreasuryError::Unauthorized));
}

#[test]
fn cancel_handler_needs_an_expired_request() {
    let mut ctx = CancelWithdrawal {
        authority: id(1),
        vault_key: id(2),
        vault: vault(),
        user: id(8),
        withdrawal_request: request(),
    };
    assert_eq!(ctx.validate(), Ok(()));
    assert_eq!(handle_cancel_withdrawal(&ctx, 200), Err(TreasuryError::WithdrawalNotExpired));
    let event = handle_cancel_withdrawal(&ctx, 201).unwrap();
    assert_eq!(event.amount, 25);
    assert_eq!(event.user, id(8));
    assert_eq!(event.timestamp, 201);
    ctx.withdrawal_request.vault = id(66);
    assert_eq!(ctx.validate(), Err(TreasuryError::InvalidVaultAccount));
}
