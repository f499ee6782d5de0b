//! The vault as a state machine: for each operation, the state it leads to
//! and what it returns. A refused operation leaves the state as it was.
use vstd::prelude::*;

use crate::error::VaultError;
use crate::identity::{zero_identity, Identity};
use crate::policy::Role;
use crate::state::{PendingTransactionView, TransactionType, VaultView};

verus! {

/// What a successful withdrawal request asks of the host.
#[derive(Clone, Copy, Debug, PartialEq, Eq)]
pub enum Withdrawal {
    /// Single-signer vault: transfer `amount` to `destination` now.
    Immediate { amount: u64, destination: Identity },
    /// Multisig vault: the request was queued under `tx_id`; nothing moves yet.
    Proposed { tx_id: u64 },
}

/// What a successful approval did, and what it asks of the host.
#[derive(Clone, Copy, Debug, PartialEq, Eq)]
pub enum Approval {
    /// The approval was recorded; the transaction still waits.
    Recorded,
    /// The withdrawal `tx_id` has its approvals and is within the limit: the
    /// host transfers `amount` to `destination` under the vault's authority,
    /// then reports success through `complete_withdrawal`.
    WithdrawalDue { tx_id: u64, amount: u64, destination: Identity },
    /// The ownership transfer was carried out: `new_owner` owns the vault.
    OwnershipTransferred { new_owner: Identity },
}

/// The state of a vault just created for `owner`.
pub open spec fn initial_vault(owner: Identity, token_account: Identity, bump: u8) -> VaultView {
    VaultView {
        owner,
        token_account,
        bump,
        lock_until: 0,
        delegates: Seq::empty(),
        multisig_threshold: 1,
        multisig_signers: Seq::empty(),
        pending_transactions: Seq::empty(),
        max_withdrawal_limit: u64::MAX,
        transfer_ownership_to: None,
        next_tx_id: 0,
    }
}

/// `ids` without any occurrence of `who`.
pub open spec fn without(ids: Seq<Identity>, who: Identity) -> Seq<Identity> {
    ids.filter(|d: Identity| d != who)
}

/// Keeps every transaction but the unexecuted ownership transfers.
pub open spec fn survives_cancel(tx: PendingTransactionView) -> bool {
    tx.transaction_type != TransactionType::TransferOwnership || tx.executed
}

/// The queue once the unexecuted ownership transfers are dropped.
pub open spec fn after_cancel(txs: Seq<PendingTransactionView>) -> Seq<PendingTransactionView> {
    txs.filter(|tx: PendingTransactionView| survives_cancel(tx))
}

impl VaultView {
    /// A further transaction id can still be assigned.
    pub open spec fn can_propose(self) -> bool {
        self.next_tx_id < u64::MAX
    }

    /// The transaction that `caller` proposes at time `now`, signed by it alone.
    pub open spec fn proposal(
        self,
        caller: Identity,
        now: u64,
        kind: TransactionType,
        amount: u64,
        destination: Identity,
        new_owner: Option<Identity>,
    ) -> PendingTransactionView {
        PendingTransactionView {
            id: self.next_tx_id,
            transaction_type: kind,
            amount,
            destination,
            new_owner,
            signers: seq![caller],
            executed: false,
            created_at: now,
        }
    }

    /// The vault with `tx` appended to its queue and the id counter advanced.
    pub open spec fn enqueue(self, tx: PendingTransactionView) -> VaultView {
        VaultView {
            pending_transactions: self.pending_transactions.push(tx),
            next_tx_id: (self.next_tx_id + 1) as u64,
            ..self
        }
    }

    /// The vault with the transaction at `i` replaced by `tx`.
    pub open spec fn with_transaction(self, i: int, tx: PendingTransactionView) -> VaultView {
        VaultView { pending_transactions: self.pending_transactions.update(i, tx), ..self }
    }

    /// The vault handed over to `new_owner`: the transfer is no longer in
    /// flight and the old owner's delegates lose their rights.
    pub open spec fn handed_over(self, new_owner: Identity) -> VaultView {
        VaultView {
            owner: new_owner,
            transfer_ownership_to: None,
            delegates: Seq::empty(),
            ..self
        }
    }

    pub open spec fn withdraw_step(
        self,
        caller: Identity,
        now: u64,
        amount: u64,
        destination: Identity,
    ) -> (VaultView, Result<Withdrawal, VaultError>) {
        if !self.holds_role(caller, Role::OwnerOrDelegate) {
            (self, Err(VaultError::Unauthorized))
        } else if now < self.lock_until {
            (self, Err(VaultError::VaultLocked))
        } else if amount > self.max_withdrawal_limit {
            (self, Err(VaultError::ExceedsWithdrawalLimit))
        } else if self.multisig_threshold > 1 {
            let tx = self.proposal(caller, now, TransactionType::Withdraw, amount, destination, None);
            (self.enqueue(tx), Ok(Withdrawal::Proposed { tx_id: self.next_tx_id }))
        } else {
            (self, Ok(Withdrawal::Immediate { amount, destination }))
        }
    }

    pub open spec fn set_timelock_step(self, caller: Identity, now: u64, duration: u64) -> (
        VaultView,
        Result<(), VaultError>,
    ) {
        if !self.holds_role(caller, Role::Owner) {
            (self, Err(VaultError::Unauthorized))
        } else {
            (VaultView { lock_until: (now + duration) as u64, ..self }, Ok(()))
        }
    }

    pub open spec fn add_delegate_step(self, caller: Identity, delegate: Identity) -> (
        VaultView,
        Result<(), VaultError>,
    ) {
        if !self.holds_role(caller, Role::Owner) {
            (self, Err(VaultError::Unauthorized))
        } else if self.delegates.contains(delegate) {
            (self, Ok(()))
        } else {
            (VaultView { delegates: self.delegates.push(delegate), ..self }, Ok(()))
        }
    }

    pub open spec fn remove_delegate_step(self, caller: Identity, delegate: Identity) -> (
        VaultView,
        Result<(), VaultError>,
    ) {
        if !self.holds_role(caller, Role::Owner) {
            (self, Err(VaultError::Unauthorized))
        } else {
            (
                VaultView { delegates: without(self.delegates, delegate), ..self },
                Ok(()),
            )
        }
    }

    pub open spec fn set_multisig_step(self, caller: Identity, threshold: u8, signers: Seq<Identity>) -> (
        VaultView,
        Result<(), VaultError>,
    ) {
        if !self.holds_role(caller, Role::Owner) {
            (self, Err(VaultError::Unauthorized))
        } else if threshold < 1 || threshold > signers.len() + 1 {
            (self, Err(VaultError::InvalidThreshold))
        } else {
            (VaultView { multisig_threshold: threshold, multisig_signers: signers, ..self }, Ok(()))
        }
    }

    pub open spec fn set_withdrawal_limit_step(self, caller: Identity, limit: u64) -> (
        VaultView,
        Result<(), VaultError>,
    ) {
        if !self.holds_role(caller, Role::Owner) {
            (self, Err(VaultError::Unauthorized))
        } else {
            (VaultView { max_withdrawal_limit: limit, ..self }, Ok(()))
        }
    }

    /// `caller` approves the transaction `tx_id`. Once it has enough distinct
    /// approvals an ownership transfer is carried out at once, while a
    /// withdrawal is handed to the host, after a check against the current
    /// limit that refuses the whole approval if it fails.
    pub open spec fn approve_step(self, caller: Identity, tx_id: u64) -> (
        VaultView,
        Result<Approval, VaultError>,
    ) {
        if !self.holds_role(caller, Role::OwnerOrSigner) {
            (self, Err(VaultError::Unauthorized))
        } else if !self.has_open(tx_id) {
            (self, Err(VaultError::TransactionNotFound))
        } else {
            let i = self.open_index(tx_id);
            let tx = self.pending_transactions[i];
            let signed = tx.signed_by(caller);
            let recorded = self.with_transaction(i, signed);
            if signed.signers.len() < self.multisig_threshold {
                (recorded, Ok(Approval::Recorded))
            } else {
                match tx.transaction_type {
                    TransactionType::Withdraw => {
                        if tx.amount > self.max_withdrawal_limit {
                            (self, Err(VaultError::ExceedsWithdrawalLimit))
                        } else {
                            (
                                recorded,
                                Ok(
                                    Approval::WithdrawalDue {
                                        tx_id,
                                        amount: tx.amount,
                                        destination: tx.destination,
                                    },
                                ),
                            )
                        }
                    },
                    TransactionType::TransferOwnership => {
                        match tx.new_owner {
                            Some(new_owner) => (
                                self.handed_over(new_owner).with_transaction(
                                    i,
                                    signed.mark_executed(),
                                ),
                                Ok(Approval::OwnershipTransferred { new_owner }),
                            ),
                            None => (recorded, Ok(Approval::Recorded)),
                        }
                    },
                }
            }
        }
    }

    /// The host reports that the transfer of the withdrawal `tx_id` succeeded.
    /// Only a ready withdrawal within the current limit is marked executed.
    pub open spec fn complete_withdrawal_step(self, tx_id: u64) -> (
        VaultView,
        Result<(), VaultError>,
    ) {
        if !self.has_open(tx_id) {
            (self, Err(VaultError::TransactionNotFound))
        } else {
            let i = self.open_index(tx_id);
            let tx = self.pending_transactions[i];
            if tx.transaction_type != TransactionType::Withdraw || !tx.is_ready(
                self.multisig_threshold,
            ) {
                (self, Err(VaultError::TransactionNotFound))
            } else if tx.amount > self.max_withdrawal_limit {
                (self, Err(VaultError::ExceedsWithdrawalLimit))
            } else {
                (self.with_transaction(i, tx.mark_executed()), Ok(()))
            }
        }
    }

    pub open spec fn initiate_transfer_step(self, caller: Identity, now: u64, new_owner: Identity) -> (
        VaultView,
        Result<(), VaultError>,
    ) {
        if !self.holds_role(caller, Role::Owner) {
            (self, Err(VaultError::Unauthorized))
        } else {
            let marked = VaultView { transfer_ownership_to: Some(new_owner), ..self };
            if self.multisig_threshold > 1 {
                let tx = self.proposal(
                    caller,
                    now,
                    TransactionType::TransferOwnership,
                    0,
                    zero_identity(),
                    Some(new_owner),
                );
                (marked.enqueue(tx), Ok(()))
            } else {
                (marked, Ok(()))
            }
        }
    }

    pub open spec fn accept_ownership_step(self, caller: Identity) -> (
        VaultView,
        Result<(), VaultError>,
    ) {
        match self.transfer_ownership_to {
            None => (self, Err(VaultError::NoOwnershipTransferPending)),
            Some(pending) => {
                if pending != caller {
                    (self, Err(VaultError::Unauthorized))
                } else if self.multisig_threshold <= 1 {
                    (self.handed_over(pending), Ok(()))
                } else {
                    (self, Ok(()))
                }
            },
        }
    }

    pub open spec fn cancel_transfer_step(self, caller: Identity) -> (
        VaultView,
        Result<(), VaultError>,
    ) {
        if !self.holds_role(caller, Role::Owner) {
            (self, Err(VaultError::Unauthorized))
        } else if self.transfer_ownership_to is None {
            (self, Err(VaultError::NoOwnershipTransferPending))
        } else {
            (
                VaultView {
                    transfer_ownership_to: None,
                    pending_transactions: after_cancel(self.pending_transactions),
                    ..self
                },
                Ok(()),
            )
        }
    }
}

} // verus!
