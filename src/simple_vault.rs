//! The vault's operations. Each takes the caller's identity, already
//! authenticated by the host, and, where time matters, the current time.
//! Each one's result and effect is the matching step of the state machine
//! in `transitions`; a refused operation changes nothing.
use vstd::prelude::*;

use crate::error::VaultError;
use crate::invariants::{lemma_add_delegate_well_formed, lemma_approve_well_formed, lemma_cancel_transfer_well_formed, lemma_complete_withdrawal_well_formed, lemma_initiate_transfer_well_formed, lemma_remove_delegate_well_formed, lemma_withdraw_well_formed};
use crate::identity::{list_holds, Identity};
use crate::state::PendingTransactionView;
use crate::policy::{authorize, check_timelock, check_withdrawal_limit, Role};
use crate::state::{find_open, lemma_open_index, PendingTransaction, TransactionType, Vault};
use crate::transitions::{after_cancel, initial_vault, survives_cancel, without, Approval, Withdrawal};

verus! {

/// Creates the vault of `owner`, controlling `token_account`: single-signer,
/// unlocked, without delegates or pending transactions, and with no
/// withdrawal limit.
pub fn initialize(owner: Identity, token_account: Identity, bump: u8) -> (r: Vault)
    ensures
        r@ == initial_vault(owner, token_account, bump),
        r@.well_formed(),
{
    let r = Vault {
        owner,
        token_account,
        bump,
        lock_until: 0,
        delegates: Vec::new(),
        multisig_threshold: 1,
        multisig_signers: Vec::new(),
        pending_transactions: Vec::new(),
        max_withdrawal_limit: u64::MAX,
        transfer_ownership_to: None,
        next_tx_id: 0,
    };
    assert(r@.pending_transactions =~= Seq::<PendingTransactionView>::empty());
    r
}

/// Appends a transaction proposed by `caller`, signed by it alone, and
/// returns its id.
fn propose(
    vault: &mut Vault,
    caller: Identity,
    now: u64,
    kind: TransactionType,
    amount: u64,
    destination: Identity,
    new_owner: Option<Identity>,
) -> (id: u64)
    requires
        old(vault)@.can_propose(),
    ensures
        id == old(vault).next_tx_id,
        final(vault)@ == old(vault)@.enqueue(
            old(vault)@.proposal(caller, now, kind, amount, destination, new_owner),
        ),
{
    let ghost pre = vault@;
    let id = vault.next_tx_id;
    let tx = PendingTransaction {
        id,
        transaction_type: kind,
        amount,
        destination,
        new_owner,
        signers: vec![caller],
        executed: false,
        created_at: now,
    };
    assert(tx@.signers =~= seq![caller]);
    vault.pending_transactions.push(tx);
    vault.next_tx_id = id + 1;
    assert(vault@.pending_transactions =~= pre.pending_transactions.push(
        pre.proposal(caller, now, kind, amount, destination, new_owner),
    ));
    id
}

/// `caller`, the owner or a delegate, asks to withdraw `amount` to
/// `destination` at time `now`.
///
/// A single-signer vault answers `Immediate`: the host performs the transfer
/// and the vault is unchanged. A multisig vault queues the request, signed by
/// `caller`, and answers `Proposed` with its id; nothing moves yet.
pub fn withdraw(
    vault: &mut Vault,
    caller: Identity,
    now: u64,
    amount: u64,
    destination: Identity,
) -> (r: Result<Withdrawal, VaultError>)
    requires
        old(vault).multisig_threshold > 1 ==> old(vault)@.can_propose(),
    ensures
        (final(vault)@, r) == old(vault)@.withdraw_step(caller, now, amount, destination),
        old(vault)@.well_formed() ==> final(vault)@.well_formed(),
{
    proof {
        if vault@.well_formed() {
            lemma_withdraw_well_formed(vault@, caller, now, amount, destination);
        }
    }
    if let Err(e) = authorize(vault, &caller, Role::OwnerOrDelegate) {
        return Err(e);
    }
    if let Err(e) = check_timelock(vault, now) {
        return Err(e);
    }
    if let Err(e) = check_withdrawal_limit(vault, amount) {
        return Err(e);
    }
    if vault.multisig_threshold > 1 {
        let tx_id = propose(vault, caller, now, TransactionType::Withdraw, amount, destination, None);
        Ok(Withdrawal::Proposed { tx_id })
    } else {
        Ok(Withdrawal::Immediate { amount, destination })
    }
}

/// The owner locks withdrawals until `now + duration`, replacing any earlier
/// lock; a zero duration unlocks at once.
pub fn set_timelock(vault: &mut Vault, caller: Identity, now: u64, duration: u64) -> (r: Result<
    (),
    VaultError,
>)
    requires
        now + duration <= u64::MAX,
    ensures
        (final(vault)@, r) == old(vault)@.set_timelock_step(caller, now, duration),
        old(vault)@.well_formed() ==> final(vault)@.well_formed(),
{
    if let Err(e) = authorize(vault, &caller, Role::Owner) {
        return Err(e);
    }
    vault.lock_until = now + duration;
    Ok(())
}

/// The owner lets `delegate` withdraw; nothing changes if it already may.
pub fn add_delegate(vault: &mut Vault, caller: Identity, delegate: Identity) -> (r: Result<
    (),
    VaultError,
>)
    ensures
        (final(vault)@, r) == old(vault)@.add_delegate_step(caller, delegate),
        old(vault)@.well_formed() ==> final(vault)@.well_formed(),
{
    proof {
        if vault@.well_formed() {
            lemma_add_delegate_well_formed(vault@, caller, delegate);
        }
    }
    if let Err(e) = authorize(vault, &caller, Role::Owner) {
        return Err(e);
    }
    if !list_holds(&vault.delegates, &delegate) {
        vault.delegates.push(delegate);
    }
    Ok(())
}

/// The owner takes withdrawal rights away from `delegate`; nothing changes
/// if it had none.
pub fn remove_delegate(vault: &mut Vault, caller: Identity, delegate: Identity) -> (r: Result<
    (),
    VaultError,
>)
    ensures
        (final(vault)@, r) == old(vault)@.remove_delegate_step(caller, delegate),
        old(vault)@.well_formed() ==> final(vault)@.well_formed(),
{
    proof {
        if vault@.well_formed() {
            lemma_remove_delegate_well_formed(vault@, caller, delegate);
        }
    }
    if let Err(e) = authorize(vault, &caller, Role::Owner) {
        return Err(e);
    }
    let ghost pre = vault@;
    let ghost all = vault.delegates@;
    let mut kept: Vec<Identity> = Vec::new();
    let mut i: usize = 0;
    while i < vault.delegates.len()
        invariant
            i <= vault.delegates.len(),
            vault@ == pre,
            vault.delegates@ == all,
            kept@ == without(all.subrange(0, i as int), delegate),
        decreases vault.delegates.len() - i,
    {
        let d = vault.delegates[i];
        proof {
            let upto = all.subrange(0, i + 1);
            assert(upto.drop_last() =~= all.subrange(0, i as int));
            reveal(Seq::filter);
            assert(without(upto, delegate) == if d != delegate {
                without(all.subrange(0, i as int), delegate).push(d)
            } else {
                without(all.subrange(0, i as int), delegate)
            });
        }
        if !d.same_as(&delegate) {
            kept.push(d);
        }
        i = i + 1;
    }
    assert(all.subrange(0, all.len() as int) =~= all);
    vault.delegates = kept;
    Ok(())
}

/// The owner requires `threshold` approvals, the owner counted, from among
/// itself and `signers`. The threshold must lie in `1 ..= signers.len() + 1`.
pub fn set_multisig(vault: &mut Vault, caller: Identity, threshold: u8, signers: Vec<Identity>) -> (r:
    Result<(), VaultError>)
    ensures
        (final(vault)@, r) == old(vault)@.set_multisig_step(caller, threshold, signers@),
        old(vault)@.well_formed() ==> final(vault)@.well_formed(),
{
    if let Err(e) = authorize(vault, &caller, Role::Owner) {
        return Err(e);
    }
    if threshold < 1 || threshold as usize - 1 > signers.len() {
        return Err(VaultError::InvalidThreshold);
    }
    vault.multisig_threshold = threshold;
    vault.multisig_signers = signers;
    Ok(())
}

/// The owner sets the largest amount that any single withdrawal may move.
pub fn set_withdrawal_limit(vault: &mut Vault, caller: Identity, limit: u64) -> (r: Result<
    (),
    VaultError,
>)
    ensures
        (final(vault)@, r) == old(vault)@.set_withdrawal_limit_step(caller, limit),
        old(vault)@.well_formed() ==> final(vault)@.well_formed(),
{
    if let Err(e) = authorize(vault, &caller, Role::Owner) {
        return Err(e);
    }
    vault.max_withdrawal_limit = limit;
    Ok(())
}

/// The owner proposes `new_owner` as the next owner. A single-signer vault
/// then waits for `new_owner` to accept; a multisig vault also queues an
/// ownership transfer that completes by approval.
pub fn initiate_ownership_transfer(
    vault: &mut Vault,
    caller: Identity,
    now: u64,
    new_owner: Identity,
) -> (r: Result<(), VaultError>)
    requires
        old(vault).multisig_threshold > 1 ==> old(vault)@.can_propose(),
    ensures
        (final(vault)@, r) == old(vault)@.initiate_transfer_step(caller, now, new_owner),
        old(vault)@.well_formed() ==> final(vault)@.well_formed(),
{
    proof {
        if vault@.well_formed() {
            lemma_initiate_transfer_well_formed(vault@, caller, now, new_owner);
        }
    }
    if let Err(e) = authorize(vault, &caller, Role::Owner) {
        return Err(e);
    }
    vault.transfer_ownership_to = Some(new_owner);
    if vault.multisig_threshold > 1 {
        propose(
            vault,
            caller,
            now,
            TransactionType::TransferOwnership,
            0,
            Identity::zero(),
            Some(new_owner),
        );
    }
    Ok(())
}

/// The proposed new owner accepts. On a single-signer vault the vault is
/// handed over at once and the old delegates lose their rights; on a
/// multisig vault the call changes nothing, as the transfer completes by
/// approval.
pub fn accept_ownership(vault: &mut Vault, caller: Identity) -> (r: Result<(), VaultError>)
    ensures
        (final(vault)@, r) == old(vault)@.accept_ownership_step(caller),
        old(vault)@.well_formed() ==> final(vault)@.well_formed(),
{
    match vault.transfer_ownership_to {
        None => Err(VaultError::NoOwnershipTransferPending),
        Some(pending) => {
            if !pending.same_as(&caller) {
                return Err(VaultError::Unauthorized);
            }
            if vault.multisig_threshold <= 1 {
                vault.owner = pending;
                vault.transfer_ownership_to = None;
                vault.delegates.clear();
                assert(vault@.delegates =~= Seq::<Identity>::empty());
            }
            Ok(())
        },
    }
}

/// The owner withdraws the ownership transfer in flight, and every queued
/// ownership transfer not yet executed with it; withdrawals stay queued.
pub fn cancel_ownership_transfer(vault: &mut Vault, caller: Identity) -> (r: Result<(), VaultError>)
    ensures
        (final(vault)@, r) == old(vault)@.cancel_transfer_step(caller),
        old(vault)@.well_formed() ==> final(vault)@.well_formed(),
{
    proof {
        if vault@.well_formed() {
            lemma_cancel_transfer_well_formed(vault@, caller);
        }
    }
    if let Err(e) = authorize(vault, &caller, Role::Owner) {
        return Err(e);
    }
    if vault.transfer_ownership_to.is_none() {
        return Err(VaultError::NoOwnershipTransferPending);
    }
    vault.transfer_ownership_to = None;
    let ghost all = vault@.pending_transactions;
    let mut txs: Vec<PendingTransaction> = Vec::new();
    std::mem::swap(&mut vault.pending_transactions, &mut txs);
    let ghost mut k: int = 0;
    let mut i: usize = 0;
    while i < txs.len()
        invariant
            0 <= k <= all.len(),
            i == after_cancel(all.subrange(0, k)).len(),
            txs@.map_values(|t: PendingTransaction| t@) == after_cancel(all.subrange(0, k))
                + all.subrange(k, all.len() as int),
        decreases txs.len() - i,
    {
        let ghost before = txs@.map_values(|t: PendingTransaction| t@);
        let ghost kept = after_cancel(all.subrange(0, k));
        proof {
            let upto = all.subrange(0, k + 1);
            assert(upto.drop_last() =~= all.subrange(0, k));
            reveal(Seq::filter);
            assert(after_cancel(upto) == if survives_cancel(all[k]) {
                kept.push(all[k])
            } else {
                kept
            });
            assert(before[i as int] == all[k]);
        }
        if txs[i].transaction_type == TransactionType::TransferOwnership && !txs[i].executed {
            txs.remove(i);
            proof {
                assert(txs@.map_values(|t: PendingTransaction| t@) =~= before.remove(i as int));
                assert(before.remove(i as int) =~= kept + all.subrange(k + 1, all.len() as int));
            }
        } else {
            i = i + 1;
            proof {
                assert(before =~= kept.push(all[k]) + all.subrange(k + 1, all.len() as int));
            }
        }
        proof {
            k = k + 1;
        }
    }
    proof {
        assert(all.subrange(0, k) =~= all);
        assert(all.subrange(k, all.len() as int) =~= Seq::<PendingTransactionView>::empty());
        assert(txs@.map_values(|t: PendingTransaction| t@) =~= after_cancel(all));
    }
    vault.pending_transactions = txs;
    Ok(())
}

/// The host reports that it has performed the transfer that approving the
/// withdrawal `tx_id` asked for; the withdrawal is marked executed.
///
/// Refused with `TransactionNotFound` unless `tx_id` names an unexecuted
/// withdrawal with enough approvals, and with `ExceedsWithdrawalLimit` if its
/// amount is above the current limit.
pub fn complete_withdrawal(vault: &mut Vault, tx_id: u64) -> (r: Result<(), VaultError>)
    ensures
        (final(vault)@, r) == old(vault)@.complete_withdrawal_step(tx_id),
        old(vault)@.well_formed() ==> final(vault)@.well_formed(),
{
    proof {
        if vault@.well_formed() {
            lemma_complete_withdrawal_well_formed(vault@, tx_id);
        }
    }
    let ghost pre = vault@;
    let i = match find_open(vault, tx_id) {
        Some(i) => i,
        None => {
            return Err(VaultError::TransactionNotFound);
        },
    };
    proof {
        lemma_open_index(pre, tx_id, i as int);
    }
    let tx = &vault.pending_transactions[i];
    if tx.transaction_type != TransactionType::Withdraw || tx.signers.len()
        < vault.multisig_threshold as usize {
        return Err(VaultError::TransactionNotFound);
    }
    if tx.amount > vault.max_withdrawal_limit {
        return Err(VaultError::ExceedsWithdrawalLimit);
    }
    vault.pending_transactions[i].executed = true;
    assert(vault@.pending_transactions =~= pre.pending_transactions.update(
        i as int,
        pre.pending_transactions[i as int].mark_executed(),
    ));
    Ok(())
}

/// `caller` approves the pending transaction `tx_id`.
///
/// An approval that brings a withdrawal to its threshold returns
/// `WithdrawalDue`: the host performs the transfer and, on success, calls
/// [`complete_withdrawal`]; the transaction stays unexecuted until then.
pub fn approve_transaction(vault: &mut Vault, caller: Identity, tx_id: u64) -> (r: Result<
    Approval,
    VaultError,
>)
    ensures
        (final(vault)@, r) == old(vault)@.approve_step(caller, tx_id),
        old(vault)@.well_formed() ==> final(vault)@.well_formed(),
{
    proof {
        if vault@.well_formed() {
            lemma_approve_well_formed(vault@, caller, tx_id);
        }
    }
    let ghost pre = vault@;
    if let Err(e) = authorize(vault, &caller, Role::OwnerOrSigner) {
        return Err(e);
    }
    let i = match find_open(vault, tx_id) {
        Some(i) => i,
        None => {
            return Err(VaultError::TransactionNotFound);
        },
    };
    proof {
        lemma_open_index(pre, tx_id, i as int);
    }
    let already = list_holds(&vault.pending_transactions[i].signers, &caller);
    let count = vault.pending_transactions[i].signers.len();
    let threshold = vault.multisig_threshold as usize;
    let reached = if already {
        count >= threshold
    } else {
        threshold == 0 || count >= threshold - 1
    };
    let kind = vault.pending_transactions[i].transaction_type;
    let amount = vault.pending_transactions[i].amount;
    if reached && kind == TransactionType::Withdraw && amount > vault.max_withdrawal_limit {
        return Err(VaultError::ExceedsWithdrawalLimit);
    }
    if !already {
        vault.pending_transactions[i].signers.push(caller);
    }
    assert(vault@.pending_transactions =~= pre.pending_transactions.update(
        i as int,
        pre.pending_transactions[i as int].signed_by(caller),
    ));
    if !reached {
        return Ok(Approval::Recorded);
    }
    match kind {
        TransactionType::Withdraw => Ok(
            Approval::WithdrawalDue {
                tx_id,
                amount,
                destination: vault.pending_transactions[i].destination,
            },
        ),
        TransactionType::TransferOwnership => {
            match vault.pending_transactions[i].new_owner {
                Some(new_owner) => {
                    vault.owner = new_owner;
                    vault.transfer_ownership_to = None;
                    vault.delegates.clear();
                    vault.pending_transactions[i].executed = true;
                    assert(vault@.delegates =~= Seq::<Identity>::empty());
                    assert(vault@.pending_transactions =~= pre.pending_transactions.update(
                        i as int,
                        pre.pending_transactions[i as int].signed_by(caller).mark_executed(),
                    ));
                    Ok(Approval::OwnershipTransferred { new_owner })
                },
                None => Ok(Approval::Recorded),
            }
        },
    }
}

} // verus!
