use vstd::prelude::*;

verus! {

/// Why a vault operation was refused. A refused operation leaves the vault
/// as it was.
#[derive(Clone, Copy, Debug, PartialEq, Eq, Structural)]
pub enum VaultError {
    /// The caller does not hold the role that the operation requires.
    Unauthorized,
    /// Withdrawals are locked until a later time.
    VaultLocked,
    /// A multisig threshold outside `1 ..= signers + 1`.
    InvalidThreshold,
    /// No pending transaction with that id awaits approval or execution.
    TransactionNotFound,
    /// The amount is above the vault's single-withdrawal limit.
    ExceedsWithdrawalLimit,
    /// No ownership transfer is in flight.
    NoOwnershipTransferPending,
}

impl VaultError {
    /// A human-readable description of the error.
    pub fn message(&self) -> (r: &'static str) {
        match self {
            VaultError::Unauthorized => "Only the vault owner can perform this action",
            VaultError::VaultLocked => "Vault is locked until the specified time",
            VaultError::InvalidThreshold => "Invalid multisig threshold",
            VaultError::TransactionNotFound => "Transaction not found",
            VaultError::ExceedsWithdrawalLimit => "Withdrawal amount exceeds the limit",
            VaultError::NoOwnershipTransferPending => "No ownership transfer is pending",
        }
    }
}

} // verus!
