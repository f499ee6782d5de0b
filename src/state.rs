use vstd::prelude::*;

use crate::identity::Identity;

verus! {

/// The action that a pending transaction performs once approved.
#[derive(Clone, Copy, Debug, PartialEq, Eq, Structural)]
pub enum TransactionType {
    /// Move `amount` from the vault's asset account to `destination`.
    Withdraw,
    /// Hand the vault over to `new_owner`.
    TransferOwnership,
}

/// A proposed action of a multisig vault, awaiting approvals.
#[derive(Clone, Debug)]
pub struct PendingTransaction {
    pub id: u64,
    pub transaction_type: TransactionType,
    /// Amount to withdraw (withdrawals only).
    pub amount: u64,
    /// Account that receives the withdrawal (withdrawals only).
    pub destination: Identity,
    /// Owner to install (ownership transfers only).
    pub new_owner: Option<Identity>,
    /// Distinct identities that have approved, the proposer first.
    pub signers: Vec<Identity>,
    /// Set once the action has been carried out; terminal.
    pub executed: bool,
    pub created_at: u64,
}

/// Mathematical model of a [`PendingTransaction`].
pub struct PendingTransactionView {
    pub id: u64,
    pub transaction_type: TransactionType,
    pub amount: u64,
    pub destination: Identity,
    pub new_owner: Option<Identity>,
    pub signers: Seq<Identity>,
    pub executed: bool,
    pub created_at: u64,
}

impl View for PendingTransaction {
    type V = PendingTransactionView;

    open spec fn view(&self) -> PendingTransactionView {
        PendingTransactionView {
            id: self.id,
            transaction_type: self.transaction_type,
            amount: self.amount,
            destination: self.destination,
            new_owner: self.new_owner,
            signers: self.signers@,
            executed: self.executed,
            created_at: self.created_at,
        }
    }
}

impl PendingTransactionView {
    /// Not yet executed and carrying the id `id`.
    pub open spec fn is_open_with(self, id: u64) -> bool {
        self.id == id && !self.executed
    }

    /// Not yet executed, with at least `threshold` approvals.
    pub open spec fn is_ready(self, threshold: u8) -> bool {
        !self.executed && self.signers.len() >= threshold
    }

    /// The transaction with `who` among its signers; unchanged if already there.
    pub open spec fn signed_by(self, who: Identity) -> PendingTransactionView {
        if self.signers.contains(who) {
            self
        } else {
            PendingTransactionView { signers: self.signers.push(who), ..self }
        }
    }

    pub open spec fn mark_executed(self) -> PendingTransactionView {
        PendingTransactionView { executed: true, ..self }
    }

    pub open spec fn well_formed(self) -> bool {
        &&& self.signers.no_duplicates()
        &&& self.transaction_type == TransactionType::TransferOwnership ==> self.new_owner is Some
    }
}

/// The persistent state of one vault.
#[derive(Clone, Debug)]
pub struct Vault {
    /// Sole holder of administrative rights until ownership is transferred.
    pub owner: Identity,
    /// The ledger account that the vault controls.
    pub token_account: Identity,
    /// Seed of the vault's derived signing authority.
    pub bump: u8,
    /// Withdrawals are refused while the time is below this; 0 means unlocked.
    pub lock_until: u64,
    /// Identities that may withdraw but not administer.
    pub delegates: Vec<Identity>,
    /// Distinct approvals, the owner counted, that a pending transaction needs.
    pub multisig_threshold: u8,
    /// Identities that may approve, besides the owner.
    pub multisig_signers: Vec<Identity>,
    /// Proposed actions, in order of proposal.
    pub pending_transactions: Vec<PendingTransaction>,
    /// Upper bound on the amount of any single withdrawal.
    pub max_withdrawal_limit: u64,
    /// The proposed next owner while an ownership transfer is in flight.
    pub transfer_ownership_to: Option<Identity>,
    /// Id that the next proposal receives; ids are never reused.
    pub next_tx_id: u64,
}

/// Mathematical model of a [`Vault`].
pub struct VaultView {
    pub owner: Identity,
    pub token_account: Identity,
    pub bump: u8,
    pub lock_until: u64,
    pub delegates: Seq<Identity>,
    pub multisig_threshold: u8,
    pub multisig_signers: Seq<Identity>,
    pub pending_transactions: Seq<PendingTransactionView>,
    pub max_withdrawal_limit: u64,
    pub transfer_ownership_to: Option<Identity>,
    pub next_tx_id: u64,
}

impl View for Vault {
    type V = VaultView;

    open spec fn view(&self) -> VaultView {
        VaultView {
            owner: self.owner,
            token_account: self.token_account,
            bump: self.bump,
            lock_until: self.lock_until,
            delegates: self.delegates@,
            multisig_threshold: self.multisig_threshold,
            multisig_signers: self.multisig_signers@,
            pending_transactions: self.pending_transactions@.map_values(
                |t: PendingTransaction| t@,
            ),
            max_withdrawal_limit: self.max_withdrawal_limit,
            transfer_ownership_to: self.transfer_ownership_to,
            next_tx_id: self.next_tx_id,
        }
    }
}

/// `i` is the first position in `txs` of an unexecuted transaction with id `id`.
pub open spec fn is_first_open(txs: Seq<PendingTransactionView>, id: u64, i: int) -> bool {
    &&& 0 <= i < txs.len()
    &&& txs[i].is_open_with(id)
    &&& forall|j: int| 0 <= j < i ==> !txs[j].is_open_with(id)
}

impl VaultView {
    /// The vault holds an unexecuted transaction with id `id`.
    pub open spec fn has_open(self, id: u64) -> bool {
        exists|i: int| is_first_open(self.pending_transactions, id, i)
    }

    /// Position of the first unexecuted transaction with id `id`.
    pub open spec fn open_index(self, id: u64) -> int {
        choose|i: int| is_first_open(self.pending_transactions, id, i)
    }

    /// The invariants that every operation preserves:
    /// the threshold is reachable, delegates are distinct, each transaction
    /// is well formed, and ids increase strictly along the queue and stay
    /// below the next id to be assigned.
    pub open spec fn well_formed(self) -> bool {
        &&& 1 <= self.multisig_threshold <= self.multisig_signers.len() + 1
        &&& self.delegates.no_duplicates()
        &&& forall|i: int|
            0 <= i < self.pending_transactions.len() ==> {
                &&& (#[trigger] self.pending_transactions[i]).well_formed()
                &&& self.pending_transactions[i].id < self.next_tx_id
            }
        &&& forall|i: int, j: int|
            0 <= i < j < self.pending_transactions.len() ==> (
            #[trigger] self.pending_transactions[i]).id < (
            #[trigger] self.pending_transactions[j]).id
    }
}


/// At most one position is the first open one for an id.
pub proof fn lemma_first_open_unique(txs: Seq<PendingTransactionView>, id: u64, i: int, j: int)
    requires
        is_first_open(txs, id, i),
        is_first_open(txs, id, j),
    ensures
        i == j,
{
    if i < j {
        assert(!txs[i].is_open_with(id));
    } else if j < i {
        assert(!txs[j].is_open_with(id));
    }
}

/// The first open position, once found, is the one that `open_index` names.
pub proof fn lemma_open_index(v: VaultView, id: u64, i: int)
    requires
        is_first_open(v.pending_transactions, id, i),
    ensures
        v.has_open(id),
        v.open_index(id) == i,
{
    assert(v.has_open(id));
    lemma_first_open_unique(v.pending_transactions, id, i, v.open_index(id));
}

/// Position of the first unexecuted transaction with id `tx_id`, if any.
pub fn find_open(vault: &Vault, tx_id: u64) -> (r: Option<usize>)
    ensures
        match r {
            Some(i) => is_first_open(vault@.pending_transactions, tx_id, i as int),
            None => !vault@.has_open(tx_id),
        },
{
    let mut i: usize = 0;
    while i < vault.pending_transactions.len()
        invariant
            i <= vault.pending_transactions.len(),
            forall|j: int| 0 <= j < i ==> !vault@.pending_transactions[j].is_open_with(tx_id),
        decreases vault.pending_transactions.len() - i,
    {
        let tx = &vault.pending_transactions[i];
        if tx.id == tx_id && !tx.executed {
            return Some(i);
        }
        i = i + 1;
    }
    None
}

} // verus!
