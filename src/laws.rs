//! Properties of the vault that span several operations or hold of every
//! input, stated over the state machine of `transitions` and proved.
use vstd::prelude::*;

use crate::error::VaultError;
use crate::identity::Identity;
use crate::policy::Role;
use crate::state::{is_first_open, PendingTransactionView, TransactionType, VaultView};
use crate::transitions::{after_cancel, survives_cancel, Approval, Withdrawal};
use crate::invariants::lemma_after_cancel;

verus! {

/// On a single-signer vault a withdrawal never queues a transaction: it is
/// either handed to the host for immediate transfer or refused, and the
/// vault stays as it was.
pub proof fn law_single_signer_withdrawal_is_immediate(
    v: VaultView,
    caller: Identity,
    now: u64,
    amount: u64,
    destination: Identity,
)
    requires
        v.multisig_threshold == 1,
    ensures
        ({
            let (w, r) = v.withdraw_step(caller, now, amount, destination);
            &&& w == v
            &&& r is Ok ==> r == Ok::<Withdrawal, VaultError>(
                Withdrawal::Immediate { amount, destination },
            )
        }),
{
}

/// On a multisig vault a successful withdrawal moves nothing: it appends
/// exactly one unexecuted transaction, signed by the caller alone, and
/// leaves the rest of the queue as it was.
pub proof fn law_multisig_withdrawal_enqueues_one(
    v: VaultView,
    caller: Identity,
    now: u64,
    amount: u64,
    destination: Identity,
)
    requires
        v.multisig_threshold > 1,
    ensures
        ({
            let (w, r) = v.withdraw_step(caller, now, amount, destination);
            r is Ok ==> {
                &&& r == Ok::<Withdrawal, VaultError>(Withdrawal::Proposed { tx_id: v.next_tx_id })
                &&& w.pending_transactions.len() == v.pending_transactions.len() + 1
                &&& w.pending_transactions.drop_last() == v.pending_transactions
                &&& w.pending_transactions.last().transaction_type == TransactionType::Withdraw
                &&& w.pending_transactions.last().id == v.next_tx_id
                &&& w.pending_transactions.last().amount == amount
                &&& w.pending_transactions.last().destination == destination
                &&& w.pending_transactions.last().signers == seq![caller]
                &&& !w.pending_transactions.last().executed
            }
        }),
{
    let (w, r) = v.withdraw_step(caller, now, amount, destination);
    if r is Ok {
        assert(w.pending_transactions.drop_last() =~= v.pending_transactions);
    }
}

/// A second approval of the same transaction by the same identity adds no
/// signer: the transaction's signers after it are those after the first.
pub proof fn law_repeated_approval_adds_no_signer(v: VaultView, caller: Identity, tx_id: u64)
    requires
        v.approve_step(caller, tx_id).1 is Ok,
    ensures
        ({
            let i = v.open_index(tx_id);
            let once = v.approve_step(caller, tx_id).0;
            let twice = once.approve_step(caller, tx_id).0;
            &&& twice.pending_transactions.len() == once.pending_transactions.len()
            &&& twice.pending_transactions[i].signers == once.pending_transactions[i].signers
        }),
{
    let i = v.open_index(tx_id);
    assert(is_first_open(v.pending_transactions, tx_id, i));
    let once = v.approve_step(caller, tx_id).0;
    assert(once.pending_transactions[i].signers.contains(caller)) by {
        let s = v.pending_transactions[i].signers;
        if !s.contains(caller) {
            assert(s.push(caller)[s.len() as int] == caller);
        }
    }
    if !once.pending_transactions[i].executed {
        assert(is_first_open(once.pending_transactions, tx_id, i));
        crate::state::lemma_open_index(once, tx_id, i);
    } else if once.has_open(tx_id) {
        let j = once.open_index(tx_id);
        assert(is_first_open(once.pending_transactions, tx_id, j));
        assert(j != i);
    }
}

/// An approval that succeeds marks its transaction executed exactly when it
/// carries out an ownership transfer, and that, like a withdrawal handed to
/// the host, only once the signers reach the threshold; a transaction left
/// waiting is below it. No other transaction changes.
pub proof fn law_approval_executes_at_threshold(v: VaultView, caller: Identity, tx_id: u64)
    requires
        v.well_formed(),
        v.approve_step(caller, tx_id).1 is Ok,
    ensures
        ({
            let i = v.open_index(tx_id);
            let (w, r) = v.approve_step(caller, tx_id);
            let tx = w.pending_transactions[i];
            &&& 0 <= i < v.pending_transactions.len()
            &&& !v.pending_transactions[i].executed
            &&& tx.executed == (r is Ok && r->Ok_0 is OwnershipTransferred)
            &&& r->Ok_0 is Recorded ==> tx.signers.len() < v.multisig_threshold
            &&& r->Ok_0 !is Recorded ==> tx.signers.len() >= v.multisig_threshold
            &&& tx.signers == v.pending_transactions[i].signed_by(caller).signers
            &&& w.pending_transactions.len() == v.pending_transactions.len()
            &&& forall|k: int|
                0 <= k < v.pending_transactions.len() && k != i ==> w.pending_transactions[k]
                    == v.pending_transactions[k]
        }),
{
    let i = v.open_index(tx_id);
    assert(is_first_open(v.pending_transactions, tx_id, i));
    assert(v.pending_transactions[i].well_formed());
}

/// Reporting a withdrawal as transferred marks it executed, only if it had
/// reached the threshold and is within the limit, and changes nothing else.
pub proof fn law_completion_executes_ready_withdrawal(v: VaultView, tx_id: u64)
    requires
        v.complete_withdrawal_step(tx_id).1 is Ok,
    ensures
        ({
            let i = v.open_index(tx_id);
            let w = v.complete_withdrawal_step(tx_id).0;
            &&& 0 <= i < v.pending_transactions.len()
            &&& v.pending_transactions[i].transaction_type == TransactionType::Withdraw
            &&& v.pending_transactions[i].is_ready(v.multisig_threshold)
            &&& v.pending_transactions[i].amount <= v.max_withdrawal_limit
            &&& w == v.with_transaction(i, v.pending_transactions[i].mark_executed())
        }),
{
    assert(is_first_open(v.pending_transactions, tx_id, v.open_index(tx_id)));
}

/// Once a transaction is executed no approval or completion reaches it
/// again: on a well-formed vault both are refused, approval with
/// `TransactionNotFound` for any caller entitled to approve, and the vault
/// stays as it was.
pub proof fn law_executed_transaction_is_final(
    v: VaultView,
    k: int,
    caller: Identity,
)
    requires
        v.well_formed(),
        0 <= k < v.pending_transactions.len(),
        v.pending_transactions[k].executed,
    ensures
        ({
            let id = v.pending_transactions[k].id;
            &&& v.holds_role(caller, Role::OwnerOrSigner) ==> v.approve_step(caller, id) == (
                v,
                Err::<Approval, VaultError>(VaultError::TransactionNotFound),
            )
            &&& v.approve_step(caller, id).0 == v
            &&& v.approve_step(caller, id).1 is Err
            &&& v.complete_withdrawal_step(id) == (
                v,
                Err::<(), VaultError>(VaultError::TransactionNotFound),
            )
        }),
{
    let id = v.pending_transactions[k].id;
    if v.has_open(id) {
        let j = v.open_index(id);
        assert(is_first_open(v.pending_transactions, id, j));
        if j < k {
            assert(v.pending_transactions[j].id < v.pending_transactions[k].id);
        } else if k < j {
            assert(v.pending_transactions[k].id < v.pending_transactions[j].id);
        }
    }
}

/// Lowering the limit below the amount of a withdrawal that has reached its
/// threshold makes the next approval fail with `ExceedsWithdrawalLimit`
/// (as does reporting it transferred); the withdrawal stays ready and
/// unexecuted, and the vault as it was.
pub proof fn law_lowered_limit_blocks_ready_withdrawal(
    v: VaultView,
    limit: u64,
    approver: Identity,
    tx_id: u64,
)
    requires
        v.has_open(tx_id),
        v.pending_transactions[v.open_index(tx_id)].transaction_type == TransactionType::Withdraw,
        v.pending_transactions[v.open_index(tx_id)].is_ready(v.multisig_threshold),
        limit < v.pending_transactions[v.open_index(tx_id)].amount,
        v.holds_role(approver, Role::OwnerOrSigner),
    ensures
        ({
            let lowered = v.set_withdrawal_limit_step(v.owner, limit).0;
            let i = v.open_index(tx_id);
            &&& lowered.max_withdrawal_limit == limit
            &&& lowered.approve_step(approver, tx_id) == (
                lowered,
                Err::<Approval, VaultError>(VaultError::ExceedsWithdrawalLimit),
            )
            &&& lowered.complete_withdrawal_step(tx_id) == (
                lowered,
                Err::<(), VaultError>(VaultError::ExceedsWithdrawalLimit),
            )
            &&& lowered.pending_transactions[i].is_ready(lowered.multisig_threshold)
        }),
{
    let lowered = v.set_withdrawal_limit_step(v.owner, limit).0;
    let i = v.open_index(tx_id);
    assert(is_first_open(v.pending_transactions, tx_id, i));
    assert(lowered.pending_transactions == v.pending_transactions);
    assert(lowered.has_open(tx_id));
    let tx = v.pending_transactions[i];
    assert(tx.signed_by(approver).signers.len() >= tx.signers.len());
}

/// Every change of owner, by acceptance or by an approved transfer, leaves
/// the vault without delegates and with no transfer in flight.
pub proof fn law_ownership_change_clears_delegates(v: VaultView, caller: Identity, tx_id: u64)
    ensures
        ({
            let (w, r) = v.accept_ownership_step(caller);
            &&& w.owner != v.owner ==> w.delegates.len() == 0
            &&& r is Ok && v.multisig_threshold <= 1 ==> {
                &&& w.owner == caller
                &&& w.delegates.len() == 0
                &&& w.transfer_ownership_to is None
            }
        }),
        ({
            let (w, r) = v.approve_step(caller, tx_id);
            &&& w.owner != v.owner ==> w.delegates.len() == 0
            &&& r is Ok && r->Ok_0 is OwnershipTransferred ==> {
                &&& w.owner == r->Ok_0->new_owner
                &&& w.delegates.len() == 0
                &&& w.transfer_ownership_to is None
            }
        }),
{
}

/// Cancelling with no transfer in flight fails with
/// `NoOwnershipTransferPending`. Otherwise the transfer is cleared, no
/// unexecuted ownership transfer stays queued, and every withdrawal and
/// every executed transaction stays, in order; nothing else is added.
pub proof fn law_cancel_ownership_transfer(v: VaultView)
    requires
        v.well_formed(),
    ensures
        v.transfer_ownership_to is None ==> v.cancel_transfer_step(v.owner) == (
            v,
            Err::<(), VaultError>(VaultError::NoOwnershipTransferPending),
        ),
        v.transfer_ownership_to is Some ==> ({
            let (w, r) = v.cancel_transfer_step(v.owner);
            &&& r is Ok
            &&& w.transfer_ownership_to is None
            &&& w.pending_transactions == after_cancel(v.pending_transactions)
            &&& forall|i: int|
                0 <= i < w.pending_transactions.len() ==> survives_cancel(
                    #[trigger] w.pending_transactions[i],
                )
            &&& forall|i: int|
                0 <= i < w.pending_transactions.len() ==> v.pending_transactions.contains(
                    #[trigger] w.pending_transactions[i],
                )
            &&& forall|k: int|
                0 <= k < v.pending_transactions.len() && survives_cancel(
                    #[trigger] v.pending_transactions[k],
                ) ==> w.pending_transactions.contains(v.pending_transactions[k])
        }),
{
    let keep = |tx: PendingTransactionView| survives_cancel(tx);
    lemma_after_cancel(v.pending_transactions);
    let kept = after_cancel(v.pending_transactions);
    assert forall|i: int| 0 <= i < kept.len() implies survives_cancel(#[trigger] kept[i]) by {
        v.pending_transactions.lemma_filter_pred(keep, i);
    }
    assert forall|k: int|
        0 <= k < v.pending_transactions.len() && survives_cancel(
            #[trigger] v.pending_transactions[k],
        ) implies kept.contains(v.pending_transactions[k]) by {
        v.pending_transactions.lemma_filter_contains(keep, k);
    }
}

} // verus!
