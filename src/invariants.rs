//! Every step of the state machine keeps a well-formed vault well formed.
use vstd::prelude::*;

use crate::identity::Identity;
use crate::state::{is_first_open, PendingTransactionView, TransactionType, VaultView};
use crate::transitions::{after_cancel, without};

verus! {

/// Removing an identity from a list keeps only identities of the list, and
/// leaves no duplicates where there were none.
pub proof fn lemma_without(ids: Seq<Identity>, who: Identity)
    ensures
        forall|x: Identity| without(ids, who).contains(x) ==> ids.contains(x),
        ids.no_duplicates() ==> without(ids, who).no_duplicates(),
    decreases ids.len(),
{
    reveal(Seq::filter);
    if ids.len() > 0 {
        let rest = ids.drop_last();
        lemma_without(rest, who);
        let kept = without(rest, who);
        assert(without(ids, who) == if ids.last() != who {
            kept.push(ids.last())
        } else {
            kept
        });
        assert forall|x: Identity| without(ids, who).contains(x) implies ids.contains(x) by {
            if kept.contains(x) {
                assert(rest.contains(x));
                let k = choose|k: int| 0 <= k < rest.len() && rest[k] == x;
                assert(ids[k] == x);
            } else {
                let w = without(ids, who);
                let k = choose|k: int| 0 <= k < w.len() && w[k] == x;
                if k < kept.len() {
                    assert(kept[k] == x);
                }
                assert(ids[ids.len() - 1] == x);
            }
        }
        if ids.no_duplicates() {
            assert(rest.no_duplicates());
            if ids.last() != who {
                if kept.contains(ids.last()) {
                    assert(rest.contains(ids.last()));
                    let k = choose|k: int| 0 <= k < rest.len() && rest[k] == ids.last();
                    assert(ids[k] == rest[k]);
                    assert(false);
                }
                let w = kept.push(ids.last());
                assert forall|a: int, b: int|
                    0 <= a < w.len() && 0 <= b < w.len() && a != b implies w[a] != w[b] by {
                    if b == w.len() - 1 {
                        assert(kept[a] == w[a]);
                    } else if a == w.len() - 1 {
                        assert(kept[b] == w[b]);
                    }
                }
            }
        }
    }
}

/// Dropping the unexecuted ownership transfers keeps only transactions of
/// the queue, in the strict order of their ids.
pub proof fn lemma_after_cancel(txs: Seq<PendingTransactionView>)
    requires
        forall|i: int, j: int|
            0 <= i < j < txs.len() ==> (#[trigger] txs[i]).id < (#[trigger] txs[j]).id,
    ensures
        forall|i: int|
            0 <= i < after_cancel(txs).len() ==> txs.contains(#[trigger] after_cancel(txs)[i]),
        forall|i: int, j: int|
            0 <= i < j < after_cancel(txs).len() ==> (#[trigger] after_cancel(txs)[i]).id < (
            #[trigger] after_cancel(txs)[j]).id,
    decreases txs.len(),
{
    reveal(Seq::filter);
    if txs.len() > 0 {
        let rest = txs.drop_last();
        lemma_after_cancel(rest);
        let kept = after_cancel(rest);
        assert forall|i: int| 0 <= i < kept.len() implies (#[trigger] kept[i]).id < txs.last().id
            && txs.contains(kept[i]) by {
            assert(rest.contains(kept[i]));
            let k = choose|k: int| 0 <= k < rest.len() && rest[k] == kept[i];
            assert(txs[k] == kept[i]);
        }
        assert(txs[txs.len() - 1] == txs.last());
    }
}

/// The queue with a new proposal appended stays well formed.
pub proof fn lemma_enqueue_well_formed(v: VaultView, tx: PendingTransactionView)
    requires
        v.well_formed(),
        v.can_propose(),
        tx.id == v.next_tx_id,
        tx.signers.len() == 1,
        tx.transaction_type == TransactionType::TransferOwnership ==> tx.new_owner is Some,
    ensures
        v.enqueue(tx).well_formed(),
{
    let w = v.enqueue(tx);
    assert(tx.signers.no_duplicates());
    assert forall|i: int| 0 <= i < w.pending_transactions.len() implies {
        &&& (#[trigger] w.pending_transactions[i]).well_formed()
        &&& w.pending_transactions[i].id < w.next_tx_id
    } by {
        if i < v.pending_transactions.len() {
            assert(w.pending_transactions[i] == v.pending_transactions[i]);
        }
    }
    assert forall|i: int, j: int| 0 <= i < j < w.pending_transactions.len() implies (
    #[trigger] w.pending_transactions[i]).id < (#[trigger] w.pending_transactions[j]).id by {
        assert(w.pending_transactions[i] == v.pending_transactions[i]);
        if j < v.pending_transactions.len() {
            assert(w.pending_transactions[j] == v.pending_transactions[j]);
        }
    }
}

/// Replacing a transaction by one with the same id, kind and owner field,
/// and signers without duplicates, keeps the vault well formed.
pub proof fn lemma_replace_well_formed(v: VaultView, i: int, tx: PendingTransactionView)
    requires
        v.well_formed(),
        0 <= i < v.pending_transactions.len(),
        tx.id == v.pending_transactions[i].id,
        tx.transaction_type == v.pending_transactions[i].transaction_type,
        tx.new_owner == v.pending_transactions[i].new_owner,
        tx.signers.no_duplicates(),
    ensures
        v.with_transaction(i, tx).well_formed(),
{
    let w = v.with_transaction(i, tx);
    assert forall|k: int| 0 <= k < w.pending_transactions.len() implies {
        &&& (#[trigger] w.pending_transactions[k]).well_formed()
        &&& w.pending_transactions[k].id < w.next_tx_id
    } by {
        assert(v.pending_transactions[k].well_formed());
    }
    assert forall|k: int, j: int| 0 <= k < j < w.pending_transactions.len() implies (
    #[trigger] w.pending_transactions[k]).id < (#[trigger] w.pending_transactions[j]).id by {
        assert(v.pending_transactions[k].id < v.pending_transactions[j].id);
    }
}

/// Adding a signer keeps the signers distinct.
pub proof fn lemma_signed_by_distinct(tx: PendingTransactionView, who: Identity)
    requires
        tx.signers.no_duplicates(),
    ensures
        tx.signed_by(who).signers.no_duplicates(),
        tx.signed_by(who).signers.contains(who),
{
    if tx.signers.contains(who) {
    } else {
        let s = tx.signers.push(who);
        assert(s[s.len() - 1] == who);
        assert forall|a: int, b: int| 0 <= a < s.len() && 0 <= b < s.len() && a != b implies s[a]
            != s[b] by {
            if b == s.len() - 1 {
                assert(tx.signers[a] == s[a]);
            } else if a == s.len() - 1 {
                assert(tx.signers[b] == s[b]);
            }
        }
    }
}

pub proof fn lemma_withdraw_well_formed(
    v: VaultView,
    caller: Identity,
    now: u64,
    amount: u64,
    destination: Identity,
)
    requires
        v.well_formed(),
        v.multisig_threshold > 1 ==> v.can_propose(),
    ensures
        v.withdraw_step(caller, now, amount, destination).0.well_formed(),
{
    if v.multisig_threshold > 1 {
        let tx = v.proposal(caller, now, TransactionType::Withdraw, amount, destination, None);
        lemma_enqueue_well_formed(v, tx);
    }
}

pub proof fn lemma_initiate_transfer_well_formed(
    v: VaultView,
    caller: Identity,
    now: u64,
    new_owner: Identity,
)
    requires
        v.well_formed(),
        v.multisig_threshold > 1 ==> v.can_propose(),
    ensures
        v.initiate_transfer_step(caller, now, new_owner).0.well_formed(),
{
    let marked = VaultView { transfer_ownership_to: Some(new_owner), ..v };
    if v.multisig_threshold > 1 {
        let tx = v.proposal(
            caller,
            now,
            TransactionType::TransferOwnership,
            0,
            crate::identity::zero_identity(),
            Some(new_owner),
        );
        assert(marked.well_formed());
        lemma_enqueue_well_formed(marked, tx);
    }
}

pub proof fn lemma_add_delegate_well_formed(v: VaultView, caller: Identity, delegate: Identity)
    requires
        v.well_formed(),
    ensures
        v.add_delegate_step(caller, delegate).0.well_formed(),
{
    let w = v.add_delegate_step(caller, delegate).0;
    if w.delegates != v.delegates {
        let s = w.delegates;
        assert forall|a: int, b: int| 0 <= a < s.len() && 0 <= b < s.len() && a != b implies s[a]
            != s[b] by {
            if b == s.len() - 1 {
                assert(v.delegates[a] == s[a]);
            } else if a == s.len() - 1 {
                assert(v.delegates[b] == s[b]);
            }
        }
    }
}

pub proof fn lemma_remove_delegate_well_formed(v: VaultView, caller: Identity, delegate: Identity)
    requires
        v.well_formed(),
    ensures
        v.remove_delegate_step(caller, delegate).0.well_formed(),
{
    lemma_without(v.delegates, delegate);
}

pub proof fn lemma_approve_well_formed(v: VaultView, caller: Identity, tx_id: u64)
    requires
        v.well_formed(),
    ensures
        v.approve_step(caller, tx_id).0.well_formed(),
{
    if v.holds_role(caller, crate::policy::Role::OwnerOrSigner) && v.has_open(tx_id) {
        let i = v.open_index(tx_id);
        assert(is_first_open(v.pending_transactions, tx_id, i));
        let tx = v.pending_transactions[i];
        assert(tx.well_formed());
        lemma_signed_by_distinct(tx, caller);
        lemma_replace_well_formed(v, i, tx.signed_by(caller));
        if let Some(n) = tx.new_owner {
            let h = v.handed_over(n);
            assert(h.well_formed()) by {
                assert(h.pending_transactions == v.pending_transactions);
            }
            lemma_replace_well_formed(h, i, tx.signed_by(caller).mark_executed());
        }
    }
}

pub proof fn lemma_complete_withdrawal_well_formed(v: VaultView, tx_id: u64)
    requires
        v.well_formed(),
    ensures
        v.complete_withdrawal_step(tx_id).0.well_formed(),
{
    if v.has_open(tx_id) {
        let i = v.open_index(tx_id);
        assert(is_first_open(v.pending_transactions, tx_id, i));
        assert(v.pending_transactions[i].well_formed());
        lemma_replace_well_formed(v, i, v.pending_transactions[i].mark_executed());
    }
}

pub proof fn lemma_cancel_transfer_well_formed(v: VaultView, caller: Identity)
    requires
        v.well_formed(),
    ensures
        v.cancel_transfer_step(caller).0.well_formed(),
{
    lemma_after_cancel(v.pending_transactions);
    let kept = after_cancel(v.pending_transactions);
    assert forall|i: int| 0 <= i < kept.len() implies {
        &&& (#[trigger] kept[i]).well_formed()
        &&& kept[i].id < v.next_tx_id
    } by {
        assert(v.pending_transactions.contains(kept[i]));
    }
}

} // verus!
