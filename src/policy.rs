use vstd::prelude::*;

use crate::error::VaultError;
use crate::identity::{list_holds, Identity};
use crate::state::{Vault, VaultView};

verus! {

/// The role that an operation demands of its caller.
#[derive(Clone, Copy, Debug, PartialEq, Eq, Structural)]
pub enum Role {
    /// The vault's owner alone: administrative actions.
    Owner,
    /// The owner or a delegate: withdrawals.
    OwnerOrDelegate,
    /// The owner or a multisig signer: approvals.
    OwnerOrSigner,
}

impl VaultView {
    pub open spec fn holds_role(self, who: Identity, role: Role) -> bool {
        match role {
            Role::Owner => who == self.owner,
            Role::OwnerOrDelegate => who == self.owner || self.delegates.contains(who),
            Role::OwnerOrSigner => who == self.owner || self.multisig_signers.contains(who),
        }
    }

    pub open spec fn authorization(self, who: Identity, role: Role) -> Result<(), VaultError> {
        if self.holds_role(who, role) {
            Ok(())
        } else {
            Err(VaultError::Unauthorized)
        }
    }

    /// Withdrawals are allowed at time `now`.
    pub open spec fn timelock_check(self, now: u64) -> Result<(), VaultError> {
        if now >= self.lock_until {
            Ok(())
        } else {
            Err(VaultError::VaultLocked)
        }
    }

    /// A single withdrawal of `amount` is within the current limit.
    pub open spec fn limit_check(self, amount: u64) -> Result<(), VaultError> {
        if amount <= self.max_withdrawal_limit {
            Ok(())
        } else {
            Err(VaultError::ExceedsWithdrawalLimit)
        }
    }
}

/// Decides whether `caller` holds `required` on `vault`.
pub fn authorize(vault: &Vault, caller: &Identity, required: Role) -> (r: Result<(), VaultError>)
    ensures
        r == vault@.authorization(*caller, required),
{
    let allowed = match required {
        Role::Owner => vault.owner.same_as(caller),
        Role::OwnerOrDelegate => vault.owner.same_as(caller) || list_holds(
            &vault.delegates,
            caller,
        ),
        Role::OwnerOrSigner => vault.owner.same_as(caller) || list_holds(
            &vault.multisig_signers,
            caller,
        ),
    };
    if allowed {
        Ok(())
    } else {
        Err(VaultError::Unauthorized)
    }
}

/// Decides whether withdrawals are permitted at time `now`.
pub fn check_timelock(vault: &Vault, now: u64) -> (r: Result<(), VaultError>)
    ensures
        r == vault@.timelock_check(now),
{
    if now >= vault.lock_until {
        Ok(())
    } else {
        Err(VaultError::VaultLocked)
    }
}

/// Decides whether a single withdrawal of `amount` is within the limit.
pub fn check_withdrawal_limit(vault: &Vault, amount: u64) -> (r: Result<(), VaultError>)
    ensures
        r == vault@.limit_check(amount),
{
    if amount <= vault.max_withdrawal_limit {
        Ok(())
    } else {
        Err(VaultError::ExceedsWithdrawalLimit)
    }
}

} // verus!
