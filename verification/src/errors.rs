//! The failures that an operation can report.
use vstd::prelude::*;

verus! {

/// Why an operation was refused. Every failure aborts the operation and
/// leaves all records as they were.
#[derive(Clone, Copy, Debug, PartialEq, Eq, Structural)]
pub enum TreasuryError {
    /// The caller is not the identity that the record names.
    Unauthorized,
    /// The presented mint is not the vault's configured mint.
    InvalidMint,
    /// The presented vault account is not the one the record names.
    InvalidVaultAccount,
    /// The presented payout wallet is not the vault's configured one.
    InvalidPayoutWallet,
    /// A deposit or payout was attempted while the vault is paused.
    VaultPaused,
    /// The amount is zero.
    ZeroAmount,
    /// The vault's asset balance does not cover the amount.
    InsufficientBalance,
    /// A counter or a timestamp would wrap.
    Overflow,
    /// The withdrawal request is past its expiry and can no longer be claimed.
    WithdrawalExpired,
    /// The withdrawal request is still live and cannot be cancelled.
    WithdrawalNotExpired,
    /// The requested duration is not positive.
    InvalidExpiration,
}

impl TreasuryError {
    /// The text shown to a caller for this failure.
    pub fn message(&self) -> (r: &'static str)
        ensures
            r@ == Self::message_of(*self),
    {
        match self {
            TreasuryError::Unauthorized => "Unauthorized: only vault authority can perform this action",
            TreasuryError::InvalidMint => "Invalid USDT mint address",
            TreasuryError::InvalidVaultAccount => "Invalid vault token account",
            TreasuryError::InvalidPayoutWallet => "Invalid payout wallet",
            TreasuryError::VaultPaused => "Vault is paused",
            TreasuryError::ZeroAmount => "Amount must be greater than zero",
            TreasuryError::InsufficientBalance => "Insufficient vault balance for payout",
            TreasuryError::Overflow => "Arithmetic overflow",
            TreasuryError::WithdrawalExpired => "Withdrawal request has expired",
            TreasuryError::WithdrawalNotExpired => "Withdrawal has not expired yet, cannot cancel",
            TreasuryError::InvalidExpiration => "Expiration duration must be positive",
        }
    }

    /// The message of each failure, as a sequence of characters.
    pub open spec fn message_of(e: TreasuryError) -> Seq<char> {
        match e {
            TreasuryError::Unauthorized => "Unauthorized: only vault authority can perform this action"@,
            TreasuryError::InvalidMint => "Invalid USDT mint address"@,
            TreasuryError::InvalidVaultAccount => "Invalid vault token account"@,
            TreasuryError::InvalidPayoutWallet => "Invalid payout wallet"@,
            TreasuryError::VaultPaused => "Vault is paused"@,
            TreasuryError::ZeroAmount => "Amount must be greater than zero"@,
            TreasuryError::InsufficientBalance => "Insufficient vault balance for payout"@,
            TreasuryError::Overflow => "Arithmetic overflow"@,
            TreasuryError::WithdrawalExpired => "Withdrawal request has expired"@,
            TreasuryError::WithdrawalNotExpired => "Withdrawal has not expired yet, cannot cancel"@,
            TreasuryError::InvalidExpiration => "Expiration duration must be positive"@,
        }
    }
}

} // verus!
