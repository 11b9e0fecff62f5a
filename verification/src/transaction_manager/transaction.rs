//! Transaction values, stored transaction records and their status.

use super::errors::TransactionError;
use vstd::prelude::*;

verus! {

/// Identifies a client account.
pub type ClientId = u16;

/// Identifies a transaction.
pub type TransactionId = u32;

/// The kinds of transaction that leave a record behind.
#[derive(Debug, PartialEq, Eq, Structural, Clone, Copy)]
pub enum TransactionType {
    Deposit,
    Withdrawal,
}

/// Where a recorded transaction stands in the dispute process.
#[derive(Debug, PartialEq, Eq, Structural, Clone, Copy)]
pub enum TransactionStatus {
    Valid,
    Disputed,
    Resolved,
    Chargeback,
}

impl TransactionStatus {
    /// The transition table: `Valid -> Disputed`, `Disputed -> Resolved` and
    /// `Disputed -> Chargeback`, and nothing else.
    pub open spec fn can_become(self, next: TransactionStatus) -> bool {
        ||| self == TransactionStatus::Valid && next == TransactionStatus::Disputed
        ||| self == TransactionStatus::Disputed && next == TransactionStatus::Resolved
        ||| self == TransactionStatus::Disputed && next == TransactionStatus::Chargeback
    }

    /// The status written out, as diagnostics show it.
    pub open spec fn label(self) -> Seq<char> {
        match self {
            TransactionStatus::Valid => "Valid"@,
            TransactionStatus::Disputed => "Disputed"@,
            TransactionStatus::Resolved => "Resolved"@,
            TransactionStatus::Chargeback => "Chargeback"@,
        }
    }

    /// Tells whether the transition table has a row from `self` to `next`.
    pub fn permits(&self, next: &TransactionStatus) -> (allowed: bool)
        ensures
            allowed == self.can_become(*next),
    {
        match (self, next) {
            (TransactionStatus::Valid, TransactionStatus::Disputed) => true,
            (TransactionStatus::Disputed, TransactionStatus::Resolved) => true,
            (TransactionStatus::Disputed, TransactionStatus::Chargeback) => true,
            _ => false,
        }
    }

    /// The name of the status.
    pub fn name(&self) -> (text: &'static str)
        ensures
            text@ == self.label(),
    {
        match self {
            TransactionStatus::Valid => "Valid",
            TransactionStatus::Disputed => "Disputed",
            TransactionStatus::Resolved => "Resolved",
            TransactionStatus::Chargeback => "Chargeback",
        }
    }
}

/// A transaction as the engine receives it. Only deposits and withdrawals
/// carry an amount; the dispute family refers to the amount of the record
/// it names.
#[derive(Debug, PartialEq, Eq, Structural, Clone, Copy)]
pub enum Transaction {
    Deposit { id: TransactionId, client_id: ClientId, amount_base_units: i64 },
    Withdrawal { id: TransactionId, client_id: ClientId, amount_base_units: i64 },
    Dispute { id: TransactionId, client_id: ClientId },
    Resolve { id: TransactionId, client_id: ClientId },
    Chargeback { id: TransactionId, client_id: ClientId },
}

impl Transaction {
    /// The client that the transaction names.
    pub open spec fn spec_client_id(&self) -> ClientId {
        match *self {
            Transaction::Deposit { client_id, .. } => client_id,
            Transaction::Withdrawal { client_id, .. } => client_id,
            Transaction::Dispute { client_id, .. } => client_id,
            Transaction::Resolve { client_id, .. } => client_id,
            Transaction::Chargeback { client_id, .. } => client_id,
        }
    }

    /// The transaction id that the transaction carries or refers to.
    pub open spec fn spec_id(&self) -> TransactionId {
        match *self {
            Transaction::Deposit { id, .. } => id,
            Transaction::Withdrawal { id, .. } => id,
            Transaction::Dispute { id, .. } => id,
            Transaction::Resolve { id, .. } => id,
            Transaction::Chargeback { id, .. } => id,
        }
    }

    /// The client that the transaction names.
    #[verifier::when_used_as_spec(spec_client_id)]
    pub fn client_id(&self) -> (client_id: ClientId)
        ensures
            client_id == self.spec_client_id(),
    {
        match self {
            Transaction::Deposit { client_id, .. } => *client_id,
            Transaction::Withdrawal { client_id, .. } => *client_id,
            Transaction::Dispute { client_id, .. } => *client_id,
            Transaction::Resolve { client_id, .. } => *client_id,
            Transaction::Chargeback { client_id, .. } => *client_id,
        }
    }

    /// The transaction id that the transaction carries or refers to.
    #[verifier::when_used_as_spec(spec_id)]
    pub fn id(&self) -> (id: TransactionId)
        ensures
            id == self.spec_id(),
    {
        match self {
            Transaction::Deposit { id, .. } => *id,
            Transaction::Withdrawal { id, .. } => *id,
            Transaction::Dispute { id, .. } => *id,
            Transaction::Resolve { id, .. } => *id,
            Transaction::Chargeback { id, .. } => *id,
        }
    }
}

/// The mathematical content of a stored transaction record.
pub struct Record {
    pub kind: TransactionType,
    pub id: TransactionId,
    pub client_id: ClientId,
    pub amount: int,
    pub status: TransactionStatus,
}

impl Record {
    /// A fresh record, in the initial status.
    pub open spec fn fresh(
        kind: TransactionType,
        id: TransactionId,
        client_id: ClientId,
        amount: int,
    ) -> Record {
        Record { kind, id, client_id, amount, status: TransactionStatus::Valid }
    }

    /// The same record in another status.
    pub open spec fn with_status(self, status: TransactionStatus) -> Record {
        Record { status, ..self }
    }

    /// What an attempt to move the record to `next` reports.
    pub open spec fn transition_outcome(self, next: TransactionStatus) -> Result<
        (),
        TransactionError,
    > {
        if self.status.can_become(next) {
            Ok(())
        } else {
            Err(TransactionError::InvalidStateTransition(self.status, next))
        }
    }

    /// What an attempt to dispute the record reports: the record of a
    /// withdrawal is refused before the transition table is asked.
    pub open spec fn dispute_outcome(self) -> Result<(), TransactionError> {
        if self.kind == TransactionType::Withdrawal {
            Err(TransactionError::DisputeWithdrawalNotSupported)
        } else {
            self.transition_outcome(TransactionStatus::Disputed)
        }
    }
}

/// A recorded deposit or withdrawal together with its dispute status.
#[derive(Debug, Clone, Copy)]
pub struct TransactionState {
    transaction_type: TransactionType,
    id: TransactionId,
    client_id: ClientId,
    amount_base_units: i64,
    status: TransactionStatus,
}

impl View for TransactionState {
    type V = Record;

    closed spec fn view(&self) -> Record {
        Record {
            kind: self.transaction_type,
            id: self.id,
            client_id: self.client_id,
            amount: self.amount_base_units as int,
            status: self.status,
        }
    }
}

impl TransactionState {
    /// Records a transaction in the initial status, unless its amount is
    /// below zero.
    pub fn new(
        transaction_type: TransactionType,
        id: TransactionId,
        client_id: ClientId,
        amount: i64,
    ) -> (created: Result<TransactionState, TransactionError>)
        ensures
            amount < 0 ==> created == Err::<TransactionState, _>(
                TransactionError::AmountIsNegative,
            ),
            amount >= 0 ==> created is Ok && created->Ok_0@ == Record::fresh(
                transaction_type,
                id,
                client_id,
                amount as int,
            ),
    {
        if amount < 0 {
            return Err(TransactionError::AmountIsNegative);
        }
        Ok(
            TransactionState {
                transaction_type,
                id,
                client_id,
                amount_base_units: amount,
                status: TransactionStatus::Valid,
            },
        )
    }

    /// Whether this is the record of a deposit or of a withdrawal.
    pub fn transaction_type(&self) -> (kind: &TransactionType)
        ensures
            *kind == self@.kind,
    {
        &self.transaction_type
    }

    /// The id of the recorded transaction.
    pub fn id(&self) -> (id: TransactionId)
        ensures
            id == self@.id,
    {
        self.id
    }

    /// The client that owns the record.
    pub fn client_id(&self) -> (client_id: ClientId)
        ensures
            client_id == self@.client_id,
    {
        self.client_id
    }

    /// The amount of the recorded transaction, in base units. It is set
    /// when the record is made and never changes.
    pub fn amount(&self) -> (amount: i64)
        ensures
            amount == self@.amount,
    {
        self.amount_base_units
    }

    /// Where the record stands in the dispute process.
    pub fn status(&self) -> (status: &TransactionStatus)
        ensures
            *status == self@.status,
    {
        &self.status
    }

    /// The one place where a change of status is validated: moves the record
    /// to `next` where the transition table allows it, and reports the
    /// attempted transition otherwise.
    pub fn transition(&mut self, next: TransactionStatus) -> (outcome: Result<
        (),
        TransactionError,
    >)
        ensures
            outcome == old(self)@.transition_outcome(next),
            outcome is Ok ==> final(self)@ == old(self)@.with_status(next),
            outcome is Err ==> *final(self) == *old(self),
    {
        if !self.status.permits(&next) {
            return Err(TransactionError::InvalidStateTransition(self.status, next));
        }
        self.status = next;
        Ok(())
    }

    /// Opens a dispute on the record of a deposit.
    pub fn dispute(&mut self) -> (outcome: Result<(), TransactionError>)
        ensures
            outcome == old(self)@.dispute_outcome(),
            outcome is Ok ==> final(self)@ == old(self)@.with_status(TransactionStatus::Disputed),
            outcome is Err ==> *final(self) == *old(self),
    {
        if let TransactionType::Withdrawal = self.transaction_type {
            return Err(TransactionError::DisputeWithdrawalNotSupported);
        }
        self.transition(TransactionStatus::Disputed)
    }

    /// Closes a dispute in the client's favour.
    pub fn resolve(&mut self) -> (outcome: Result<(), TransactionError>)
        ensures
            outcome == old(self)@.transition_outcome(TransactionStatus::Resolved),
            outcome is Ok ==> final(self)@ == old(self)@.with_status(TransactionStatus::Resolved),
            outcome is Err ==> *final(self) == *old(self),
    {
        self.transition(TransactionStatus::Resolved)
    }

    /// Closes a dispute by reversing the transaction.
    pub fn chargeback(&mut self) -> (outcome: Result<(), TransactionError>)
        ensures
            outcome == old(self)@.transition_outcome(TransactionStatus::Chargeback),
            outcome is Ok ==> final(self)@ == old(self)@.with_status(
                TransactionStatus::Chargeback,
            ),
            outcome is Err ==> *final(self) == *old(self),
    {
        self.transition(TransactionStatus::Chargeback)
    }
}

} // verus!
