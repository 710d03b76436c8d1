//! The error kinds shared by the token ledger, the purchase flow and the
//! exchange vault.
//!
//! Every mutating operation validates all of its preconditions before
//! performing any write; on failure it returns the specific kind below and
//! leaves all state untouched, so a failed operation is always a no-op.

use vstd::prelude::*;

verus! {

/// The failure conditions of the accounting engine.
#[derive(Clone, Copy, Debug, PartialEq, Eq, Structural)]
pub enum ContractError {
    /// A negative amount was supplied, or a numeric argument is out of range.
    InvalidAmount,
    /// The caller is not the principal the operation requires.
    Unauthorized,
    /// A second write was attempted on a field that may be written only once.
    AlreadyInitialized,
    /// The source balance is smaller than the amount to move.
    InsufficientBalance,
    /// The effective allowance is smaller than the amount to spend.
    InsufficientAllowance,
    /// The vault has no admin recorded.
    AdminNotFound,
    /// The vault's exchange is currently disabled.
    ExchangeDisabled,
    /// The beneficiary holds no participation tokens.
    NothingToClaim,
    /// The vault's stable-asset balance cannot cover the payout.
    InsufficientVaultFunds,
}

impl ContractError {
    /// A human-readable description of the error kind.
    pub fn message(&self) -> (r: &'static str)
        ensures
            r@ == self.spec_message(),
    {
        match self {
            ContractError::InvalidAmount => "Invalid amount",
            ContractError::Unauthorized => "Unauthorized",
            ContractError::AlreadyInitialized => "Already initialized",
            ContractError::InsufficientBalance => "Insufficient balance",
            ContractError::InsufficientAllowance => "Insufficient allowance",
            ContractError::AdminNotFound => "Admin not found",
            ContractError::ExchangeDisabled => "Exchange is currently disabled",
            ContractError::NothingToClaim => "Beneficiary has no tokens to claim",
            ContractError::InsufficientVaultFunds => "Vault does not have enough USDC",
        }
    }

    /// The description promised by `message`, one text per kind.
    pub open spec fn spec_message(self) -> Seq<char> {
        match self {
            ContractError::InvalidAmount => "Invalid amount"@,
            ContractError::Unauthorized => "Unauthorized"@,
            ContractError::AlreadyInitialized => "Already initialized"@,
            ContractError::InsufficientBalance => "Insufficient balance"@,
            ContractError::InsufficientAllowance => "Insufficient allowance"@,
            ContractError::AdminNotFound => "Admin not found"@,
            ContractError::ExchangeDisabled => "Exchange is currently disabled"@,
            ContractError::NothingToClaim => "Beneficiary has no tokens to claim"@,
            ContractError::InsufficientVaultFunds => "Vault does not have enough USDC"@,
        }
    }
}

} // verus!
