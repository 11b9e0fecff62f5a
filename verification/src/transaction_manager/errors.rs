//! The failures that applying a transaction can report.

use super::transaction::TransactionStatus;
use vstd::prelude::*;

verus! {

/// Why a transaction was not applied. Every failure leaves the decision to
/// skip or abort with the caller.
#[derive(Debug, PartialEq, Eq, Structural, Clone, Copy)]
pub enum TransactionError {
    /// A withdrawal asked for more than the client has available.
    InsufficientFunds,
    /// A deposit or withdrawal reused the id of a recorded transaction.
    DuplicateTransaction,
    /// A deposit or withdrawal carried an amount below zero.
    AmountIsNegative,
    /// The record is in the first status and cannot move to the second.
    InvalidStateTransition(TransactionStatus, TransactionStatus),
    /// A dispute, resolve or chargeback named an id with no record.
    DisputedTransactionNotFound,
    /// A dispute named a client that does not own the record.
    DisputeClientMismatch,
    /// A dispute named the record of a withdrawal.
    DisputeWithdrawalNotSupported,
    /// A resolve named a client that does not own the record.
    ResolveClientMismatch,
    /// A chargeback named a client that does not own the record.
    ChargebackClientMismatch,
    /// A deposit or withdrawal reached a locked account while the engine
    /// rejects activity on locked accounts.
    AccountLocked,
}

} // verus!
