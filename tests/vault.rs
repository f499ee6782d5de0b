use simple_vault::error::VaultError;
use simple_vault::identity::Identity;
use simple_vault::simple_vault::{
    accept_ownership, add_delegate, approve_transaction, cancel_ownership_transfer,
    complete_withdrawal, initialize, initiate_ownership_transfer, remove_delegate,
    set_multisig, set_timelock, set_withdrawal_limit, withdraw,
};
use simple_vault::state::{TransactionType, Vault};
use simple_vault::transitions::{Approval, Withdrawal};

fn id(n: u8) -> Identity {
    Identity::new([n; 32])
}

const OWNER: u8 = 1;
const A: u8 = 2;
const B: u8 = 3;
const C: u8 = 4;
const DEST: u8 = 9;
const VAULT_ACCOUNT: u8 = 10;

fn fresh() -> Vault {
    initialize(id(OWNER), id(VAULT_ACCOUNT), 254)
}

/// A vault of `OWNER` with threshold 2 and signers A and B.
fn two_of_three() -> Vault {
    let mut v = fresh();
    set_multisig(&mut v, id(OWNER), 2, vec![id(A), id(B)]).unwrap();
    v
}

#[test]
fn initialize_sets_defaults() {
    let v = fresh();
    assert_eq!(v.owner, id(OWNER));
    assert_eq!(v.token_account, id(VAULT_ACCOUNT));
    assert_eq!(v.bump, 254);
    assert_eq!(v.lock_until, 0);
    assert!(v.delegates.is_empty());
    assert_eq!(v.multisig_threshold, 1);
    assert!(v.multisig_signers.is_empty());
    assert!(v.pending_transactions.is_empty());
    assert_eq!(v.max_withdrawal_limit, u64::MAX);
    assert_eq!(v.transfer_ownership_to, None);
    assert_eq!(v.next_tx_id, 0);
}

#[test]
fn single_signer_withdrawal_is_immediate() {
    let mut v = fresh();
    let r = withdraw(&mut v, id(OWNER), 1000, 100, id(DEST));
    assert_eq!(r, Ok(Withdrawal::Immediate { amount: 100, destination: id(DEST) }));
    assert!(v.pending_transactions.is_empty());
    assert_eq!(v.next_tx_id, 0);
}

#[test]
fn single_signer_withdrawal_refused_creates_nothing() {
    let mut v = fresh();
    set_withdrawal_limit(&mut v, id(OWNER), 10).unwrap();
    assert_eq!(
        withdraw(&mut v, id(OWNER), 1000, 11, id(DEST)),
        Err(VaultError::ExceedsWithdrawalLimit)
    );
    assert!(v.pending_transactions.is_empty());
}

#[test]
fn delegate_may_withdraw_stranger_may_not() {
    let mut v = fresh();
    add_delegate(&mut v, id(OWNER), id(A)).unwrap();
    assert_eq!(
        withdraw(&mut v, id(A), 0, 5, id(DEST)),
        Ok(Withdrawal::Immediate { amount: 5, destination: id(DEST) })
    );
    assert_eq!(withdraw(&mut v, id(C), 0, 5, id(DEST)), Err(VaultError::Unauthorized));
}

#[test]
fn delegate_cannot_administer() {
    let mut v = fresh();
    add_delegate(&mut v, id(OWNER), id(A)).unwrap();
    assert_eq!(set_timelock(&mut v, id(A), 0, 10), Err(VaultError::Unauthorized));
    assert_eq!(add_delegate(&mut v, id(A), id(B)), Err(VaultError::Unauthorized));
    assert_eq!(set_withdrawal_limit(&mut v, id(A), 1), Err(VaultError::Unauthorized));
    assert_eq!(
        set_multisig(&mut v, id(A), 1, vec![]),
        Err(VaultError::Unauthorized)
    );
    assert_eq!(
        initiate_ownership_transfer(&mut v, id(A), 0, id(A)),
        Err(VaultError::Unauthorized)
    );
    assert_eq!(v.max_withdrawal_limit, u64::MAX);
    assert_eq!(v.lock_until, 0);
}

#[test]
fn timelock_blocks_until_expiry() {
    let mut v = fresh();
    set_timelock(&mut v, id(OWNER), 100, 50).unwrap();
    assert_eq!(v.lock_until, 150);
    assert_eq!(withdraw(&mut v, id(OWNER), 149, 1, id(DEST)), Err(VaultError::VaultLocked));
    assert_eq!(
        withdraw(&mut v, id(OWNER), 150, 1, id(DEST)),
        Ok(Withdrawal::Immediate { amount: 1, destination: id(DEST) })
    );
}

#[test]
fn timelock_overwrites_and_zero_unlocks() {
    let mut v = fresh();
    set_timelock(&mut v, id(OWNER), 100, 1000).unwrap();
    set_timelock(&mut v, id(OWNER), 200, 0).unwrap();
    assert_eq!(v.lock_until, 200);
    assert!(withdraw(&mut v, id(OWNER), 200, 1, id(DEST)).is_ok());
}

#[test]
fn withdrawal_at_limit_passes_above_fails() {
    let mut v = fresh();
    set_withdrawal_limit(&mut v, id(OWNER), 500).unwrap();
    assert!(withdraw(&mut v, id(OWNER), 0, 500, id(DEST)).is_ok());
    assert_eq!(
        withdraw(&mut v, id(OWNER), 0, 501, id(DEST)),
        Err(VaultError::ExceedsWithdrawalLimit)
    );
}

#[test]
fn delegates_are_a_set() {
    let mut v = fresh();
    add_delegate(&mut v, id(OWNER), id(A)).unwrap();
    add_delegate(&mut v, id(OWNER), id(A)).unwrap();
    add_delegate(&mut v, id(OWNER), id(B)).unwrap();
    assert_eq!(v.delegates, vec![id(A), id(B)]);
    remove_delegate(&mut v, id(OWNER), id(A)).unwrap();
    assert_eq!(v.delegates, vec![id(B)]);
    remove_delegate(&mut v, id(OWNER), id(A)).unwrap();
    assert_eq!(v.delegates, vec![id(B)]);
    assert_eq!(withdraw(&mut v, id(A), 0, 1, id(DEST)), Err(VaultError::Unauthorized));
}

#[test]
fn multisig_withdrawal_enqueues_one() {
    let mut v = two_of_three();
    let r = withdraw(&mut v, id(OWNER), 77, 100, id(DEST));
    assert_eq!(r, Ok(Withdrawal::Proposed { tx_id: 0 }));
    assert_eq!(v.pending_transactions.len(), 1);
    let tx = &v.pending_transactions[0];
    assert_eq!(tx.id, 0);
    assert_eq!(tx.transaction_type, TransactionType::Withdraw);
    assert_eq!(tx.amount, 100);
    assert_eq!(tx.destination, id(DEST));
    assert_eq!(tx.new_owner, None);
    assert_eq!(tx.signers, vec![id(OWNER)]);
    assert!(!tx.executed);
    assert_eq!(tx.created_at, 77);
    assert_eq!(v.next_tx_id, 1);
}

#[test]
fn repeated_approval_adds_no_signer() {
    let mut v = fresh();
    set_multisig(&mut v, id(OWNER), 3, vec![id(A), id(B)]).unwrap();
    withdraw(&mut v, id(OWNER), 0, 10, id(DEST)).unwrap();
    assert_eq!(approve_transaction(&mut v, id(A), 0), Ok(Approval::Recorded));
    assert_eq!(v.pending_transactions[0].signers.len(), 2);
    assert_eq!(approve_transaction(&mut v, id(A), 0), Ok(Approval::Recorded));
    assert_eq!(v.pending_transactions[0].signers.len(), 2);
    assert_eq!(approve_transaction(&mut v, id(OWNER), 0), Ok(Approval::Recorded));
    assert_eq!(v.pending_transactions[0].signers, vec![id(OWNER), id(A)]);
}

#[test]
fn two_of_three_example() {
    let mut v = two_of_three();
    assert_eq!(
        withdraw(&mut v, id(OWNER), 0, 100, id(DEST)),
        Ok(Withdrawal::Proposed { tx_id: 0 })
    );
    assert_eq!(v.pending_transactions[0].signers, vec![id(OWNER)]);
    assert_eq!(
        approve_transaction(&mut v, id(A), 0),
        Ok(Approval::WithdrawalDue { tx_id: 0, amount: 100, destination: id(DEST) })
    );
    assert_eq!(v.pending_transactions[0].signers, vec![id(OWNER), id(A)]);
    assert!(!v.pending_transactions[0].executed);
    assert_eq!(complete_withdrawal(&mut v, 0), Ok(()));
    assert!(v.pending_transactions[0].executed);
    assert_eq!(approve_transaction(&mut v, id(B), 0), Err(VaultError::TransactionNotFound));
    assert_eq!(complete_withdrawal(&mut v, 0), Err(VaultError::TransactionNotFound));
    assert!(v.pending_transactions[0].executed);
    assert_eq!(v.pending_transactions[0].signers, vec![id(OWNER), id(A)]);
}

#[test]
fn failed_transfer_leaves_withdrawal_ready() {
    let mut v = two_of_three();
    withdraw(&mut v, id(OWNER), 0, 100, id(DEST)).unwrap();
    assert!(matches!(
        approve_transaction(&mut v, id(A), 0),
        Ok(Approval::WithdrawalDue { .. })
    ));
    // The host's transfer failed, so it never reports completion; the
    // withdrawal is still ready and a later approval asks for it again.
    assert!(!v.pending_transactions[0].executed);
    assert_eq!(
        approve_transaction(&mut v, id(B), 0),
        Ok(Approval::WithdrawalDue { tx_id: 0, amount: 100, destination: id(DEST) })
    );
    assert_eq!(v.pending_transactions[0].signers.len(), 3);
}

#[test]
fn set_multisig_threshold_bounds() {
    let mut v = fresh();
    assert_eq!(set_multisig(&mut v, id(OWNER), 3, vec![id(A), id(B)]), Ok(()));
    assert_eq!(v.multisig_threshold, 3);
    assert_eq!(v.multisig_signers, vec![id(A), id(B)]);
    assert_eq!(
        set_multisig(&mut v, id(OWNER), 4, vec![id(A), id(B)]),
        Err(VaultError::InvalidThreshold)
    );
    assert_eq!(
        set_multisig(&mut v, id(OWNER), 0, vec![id(A), id(B)]),
        Err(VaultError::InvalidThreshold)
    );
    assert_eq!(v.multisig_threshold, 3);
    assert_eq!(set_multisig(&mut v, id(OWNER), 1, vec![]), Ok(()));
    assert_eq!(set_multisig(&mut v, id(OWNER), 2, vec![]), Err(VaultError::InvalidThreshold));
}

#[test]
fn lowered_limit_blocks_ready_withdrawal() {
    let mut v = two_of_three();
    withdraw(&mut v, id(OWNER), 0, 100, id(DEST)).unwrap();
    approve_transaction(&mut v, id(A), 0).unwrap();
    set_withdrawal_limit(&mut v, id(OWNER), 99).unwrap();
    let before = v.pending_transactions[0].signers.clone();
    assert_eq!(
        approve_transaction(&mut v, id(B), 0),
        Err(VaultError::ExceedsWithdrawalLimit)
    );
    assert_eq!(complete_withdrawal(&mut v, 0), Err(VaultError::ExceedsWithdrawalLimit));
    assert!(!v.pending_transactions[0].executed);
    assert_eq!(v.pending_transactions[0].signers, before);
    set_withdrawal_limit(&mut v, id(OWNER), 100).unwrap();
    assert!(matches!(
        approve_transaction(&mut v, id(B), 0),
        Ok(Approval::WithdrawalDue { .. })
    ));
    assert_eq!(complete_withdrawal(&mut v, 0), Ok(()));
}

#[test]
fn accept_ownership_clears_delegates() {
    let mut v = fresh();
    add_delegate(&mut v, id(OWNER), id(A)).unwrap();
    add_delegate(&mut v, id(OWNER), id(B)).unwrap();
    initiate_ownership_transfer(&mut v, id(OWNER), 0, id(C)).unwrap();
    assert_eq!(v.transfer_ownership_to, Some(id(C)));
    assert!(v.pending_transactions.is_empty());
    assert_eq!(accept_ownership(&mut v, id(A)), Err(VaultError::Unauthorized));
    assert_eq!(accept_ownership(&mut v, id(C)), Ok(()));
    assert_eq!(v.owner, id(C));
    assert!(v.delegates.is_empty());
    assert_eq!(v.transfer_ownership_to, None);
    assert_eq!(withdraw(&mut v, id(A), 0, 1, id(DEST)), Err(VaultError::Unauthorized));
}

#[test]
fn accept_without_transfer_fails() {
    let mut v = fresh();
    assert_eq!(accept_ownership(&mut v, id(C)), Err(VaultError::NoOwnershipTransferPending));
}

#[test]
fn multisig_ownership_transfer_by_approval() {
    let mut v = two_of_three();
    add_delegate(&mut v, id(OWNER), id(C)).unwrap();
    initiate_ownership_transfer(&mut v, id(OWNER), 5, id(C)).unwrap();
    assert_eq!(v.pending_transactions.len(), 1);
    let tx = &v.pending_transactions[0];
    assert_eq!(tx.transaction_type, TransactionType::TransferOwnership);
    assert_eq!(tx.new_owner, Some(id(C)));
    assert_eq!(tx.amount, 0);
    assert_eq!(tx.destination, Identity::zero());
    assert_eq!(tx.created_at, 5);
    // Acceptance is inert on a multisig vault.
    assert_eq!(accept_ownership(&mut v, id(C)), Ok(()));
    assert_eq!(v.owner, id(OWNER));
    assert_eq!(
        approve_transaction(&mut v, id(B), 0),
        Ok(Approval::OwnershipTransferred { new_owner: id(C) })
    );
    assert_eq!(v.owner, id(C));
    assert!(v.delegates.is_empty());
    assert_eq!(v.transfer_ownership_to, None);
    assert!(v.pending_transactions[0].executed);
    assert_eq!(approve_transaction(&mut v, id(A), 0), Err(VaultError::TransactionNotFound));
}

#[test]
fn cancel_without_transfer_fails() {
    let mut v = fresh();
    assert_eq!(
        cancel_ownership_transfer(&mut v, id(OWNER)),
        Err(VaultError::NoOwnershipTransferPending)
    );
}

#[test]
fn cancel_by_non_owner_fails() {
    let mut v = fresh();
    initiate_ownership_transfer(&mut v, id(OWNER), 0, id(C)).unwrap();
    assert_eq!(cancel_ownership_transfer(&mut v, id(C)), Err(VaultError::Unauthorized));
    assert_eq!(v.transfer_ownership_to, Some(id(C)));
}

#[test]
fn cancel_prunes_transfers_keeps_withdrawals() {
    let mut v = two_of_three();
    withdraw(&mut v, id(OWNER), 0, 10, id(DEST)).unwrap();
    initiate_ownership_transfer(&mut v, id(OWNER), 0, id(C)).unwrap();
    withdraw(&mut v, id(OWNER), 0, 20, id(DEST)).unwrap();
    initiate_ownership_transfer(&mut v, id(OWNER), 0, id(A)).unwrap();
    assert_eq!(v.pending_transactions.len(), 4);
    assert_eq!(cancel_ownership_transfer(&mut v, id(OWNER)), Ok(()));
    assert_eq!(v.transfer_ownership_to, None);
    let ids: Vec<u64> = v.pending_transactions.iter().map(|t| t.id).collect();
    assert_eq!(ids, vec![0, 2]);
    assert!(v
        .pending_transactions
        .iter()
        .all(|t| t.transaction_type == TransactionType::Withdraw));
    assert_eq!(v.pending_transactions[1].amount, 20);
}

#[test]
fn cancel_keeps_executed_transfers() {
    let mut v = two_of_three();
    initiate_ownership_transfer(&mut v, id(OWNER), 0, id(A)).unwrap();
    approve_transaction(&mut v, id(B), 0).unwrap();
    assert_eq!(v.owner, id(A));
    initiate_ownership_transfer(&mut v, id(A), 0, id(C)).unwrap();
    cancel_ownership_transfer(&mut v, id(A)).unwrap();
    assert_eq!(v.pending_transactions.len(), 1);
    assert!(v.pending_transactions[0].executed);
    assert_eq!(v.pending_transactions[0].id, 0);
}

#[test]
fn ids_are_never_reused() {
    let mut v = two_of_three();
    initiate_ownership_transfer(&mut v, id(OWNER), 0, id(C)).unwrap();
    withdraw(&mut v, id(OWNER), 0, 10, id(DEST)).unwrap();
    cancel_ownership_transfer(&mut v, id(OWNER)).unwrap();
    assert_eq!(v.pending_transactions.len(), 1);
    assert_eq!(
        withdraw(&mut v, id(OWNER), 0, 30, id(DEST)),
        Ok(Withdrawal::Proposed { tx_id: 2 })
    );
    let ids: Vec<u64> = v.pending_transactions.iter().map(|t| t.id).collect();
    assert_eq!(ids, vec![1, 2]);
    assert!(matches!(
        approve_transaction(&mut v, id(A), 1),
        Ok(Approval::WithdrawalDue { tx_id: 1, amount: 10, .. })
    ));
}

#[test]
fn approval_requires_signer_role() {
    let mut v = two_of_three();
    withdraw(&mut v, id(OWNER), 0, 10, id(DEST)).unwrap();
    assert_eq!(approve_transaction(&mut v, id(C), 0), Err(VaultError::Unauthorized));
    assert_eq!(v.pending_transactions[0].signers, vec![id(OWNER)]);
}

#[test]
fn approval_of_unknown_id_fails() {
    let mut v = two_of_three();
    assert_eq!(approve_transaction(&mut v, id(A), 7), Err(VaultError::TransactionNotFound));
}

#[test]
fn completion_requires_ready_withdrawal() {
    let mut v = fresh();
    set_multisig(&mut v, id(OWNER), 3, vec![id(A), id(B)]).unwrap();
    withdraw(&mut v, id(OWNER), 0, 10, id(DEST)).unwrap();
    approve_transaction(&mut v, id(A), 0).unwrap();
    assert_eq!(complete_withdrawal(&mut v, 0), Err(VaultError::TransactionNotFound));
    assert!(!v.pending_transactions[0].executed);
    initiate_ownership_transfer(&mut v, id(OWNER), 0, id(C)).unwrap();
    approve_transaction(&mut v, id(A), 1).unwrap();
    assert_eq!(complete_withdrawal(&mut v, 1), Err(VaultError::TransactionNotFound));
}

#[test]
fn lowered_threshold_applies_on_next_approval() {
    let mut v = fresh();
    set_multisig(&mut v, id(OWNER), 3, vec![id(A), id(B)]).unwrap();
    withdraw(&mut v, id(OWNER), 0, 10, id(DEST)).unwrap();
    approve_transaction(&mut v, id(A), 0).unwrap();
    set_multisig(&mut v, id(OWNER), 2, vec![id(A), id(B)]).unwrap();
    assert!(!v.pending_transactions[0].executed);
    assert_eq!(
        approve_transaction(&mut v, id(A), 0),
        Ok(Approval::WithdrawalDue { tx_id: 0, amount: 10, destination: id(DEST) })
    );
}

#[test]
fn error_messages() {
    assert_eq!(
        VaultError::Unauthorized.message(),
        "Only the vault owner can perform this action"
    );
    assert_eq!(VaultError::VaultLocked.message(), "Vault is locked until the specified time");
    assert_eq!(VaultError::InvalidThreshold.message(), "Invalid multisig threshold");
    assert_eq!(VaultError::TransactionNotFound.message(), "Transaction not found");
    assert_eq!(
        VaultError::ExceedsWithdrawalLimit.message(),
        "Withdrawal amount exceeds the limit"
    );
    assert_eq!(
        VaultError::NoOwnershipTransferPending.message(),
        "No ownership transfer is pending"
    );
}

#[test]
fn identity_comparison() {
    let mut bytes = [7u8; 32];
    let a = Identity::new(bytes);
    bytes[31] = 8;
    let b = Identity::new(bytes);
    assert!(a.same_as(&a));
    assert!(!a.same_as(&b));
    assert_ne!(a, b);
    assert_eq!(Identity::zero(), Identity::new([0u8; 32]));
}
