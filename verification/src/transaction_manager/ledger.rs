//! The ledger as a mathematical object: what the engine holds, and what each
//! transaction does to it. The engine's contracts are stated over these
//! definitions.

use super::balance::Funds;
use super::errors::TransactionError;
use super::transaction::{
    ClientId, Record, Transaction, TransactionId, TransactionStatus, TransactionType,
};
use vstd::prelude::*;

verus! {

/// What the engine does with a deposit or withdrawal for a client whose
/// account a chargeback has locked. The dispute family is never affected.
#[derive(Debug, PartialEq, Eq, Structural, Clone, Copy)]
pub enum LockedAccountPolicy {
    /// Locking is recorded and has no further effect.
    Accept,
    /// Deposits and withdrawals are refused with `AccountLocked`.
    Reject,
}

/// The state of the engine: a balance for every client seen so far and a
/// record for every deposit and withdrawal that was applied.
#[verifier::ext_equal]
pub struct Ledger {
    pub balances: Map<ClientId, Funds>,
    pub records: Map<TransactionId, Record>,
    pub policy: LockedAccountPolicy,
}

impl Ledger {
    /// The ledger before any transaction.
    pub open spec fn empty(policy: LockedAccountPolicy) -> Ledger {
        Ledger { balances: Map::empty(), records: Map::empty(), policy }
    }

    /// The balance of a client; a client not seen yet has the zero balance.
    pub open spec fn funds_of(self, client: ClientId) -> Funds {
        if self.balances.contains_key(client) {
            self.balances[client]
        } else {
            Funds::zero()
        }
    }

    /// Whether deposits and withdrawals for `client` are refused.
    pub open spec fn refuses(self, client: ClientId) -> bool {
        self.policy == LockedAccountPolicy::Reject && self.funds_of(client).locked
    }

    /// What a deposit or withdrawal reports. The conditions are tried in this
    /// order, and the first that fails decides: the id is new, the amount is
    /// not negative, the account takes activity, and, for a withdrawal, the
    /// available funds cover it.
    pub open spec fn entry_outcome(
        self,
        kind: TransactionType,
        id: TransactionId,
        client: ClientId,
        amount: int,
    ) -> Result<(), TransactionError> {
        if self.records.contains_key(id) {
            Err(TransactionError::DuplicateTransaction)
        } else if amount < 0 {
            Err(TransactionError::AmountIsNegative)
        } else if self.refuses(client) {
            Err(TransactionError::AccountLocked)
        } else if kind == TransactionType::Withdrawal && !self.funds_of(client).covers(amount) {
            Err(TransactionError::InsufficientFunds)
        } else {
            Ok(())
        }
    }

    /// The ledger after a deposit or withdrawal. On success the client's
    /// balance moves and the transaction is recorded. A withdrawal that the
    /// funds do not cover records nothing and moves nothing, but the client
    /// is known from then on. Every other failure changes nothing.
    pub open spec fn enter(
        self,
        kind: TransactionType,
        id: TransactionId,
        client: ClientId,
        amount: int,
    ) -> Ledger {
        match self.entry_outcome(kind, id, client, amount) {
            Ok(()) => Ledger {
                balances: self.balances.insert(
                    client,
                    match kind {
                        TransactionType::Deposit => self.funds_of(client).deposit(amount),
                        TransactionType::Withdrawal => self.funds_of(client).withdraw(amount),
                    },
                ),
                records: self.records.insert(id, Record::fresh(kind, id, client, amount)),
                ..self
            },
            Err(TransactionError::InsufficientFunds) => Ledger {
                balances: self.balances.insert(client, self.funds_of(client)),
                ..self
            },
            Err(_) => self,
        }
    }

    /// What a dispute reports. The conditions are tried in this order, and
    /// the first that fails decides: the record exists, belongs to the
    /// client, is the record of a deposit, and is in the status `Valid`.
    pub open spec fn dispute_outcome(self, id: TransactionId, client: ClientId) -> Result<
        (),
        TransactionError,
    > {
        if !self.records.contains_key(id) {
            Err(TransactionError::DisputedTransactionNotFound)
        } else if self.records[id].client_id != client {
            Err(TransactionError::DisputeClientMismatch)
        } else {
            self.records[id].dispute_outcome()
        }
    }

    /// What a resolve reports. The conditions are tried in this order, and
    /// the first that fails decides: the record exists, belongs to the
    /// client, and is in the status `Disputed`.
    pub open spec fn resolve_outcome(self, id: TransactionId, client: ClientId) -> Result<
        (),
        TransactionError,
    > {
        if !self.records.contains_key(id) {
            Err(TransactionError::DisputedTransactionNotFound)
        } else if self.records[id].client_id != client {
            Err(TransactionError::ResolveClientMismatch)
        } else {
            self.records[id].transition_outcome(TransactionStatus::Resolved)
        }
    }

    /// What a chargeback reports. The conditions are tried in this order,
    /// and the first that fails decides: the record exists, belongs to the
    /// client, and is in the status `Disputed`.
    pub open spec fn chargeback_outcome(self, id: TransactionId, client: ClientId) -> Result<
        (),
        TransactionError,
    > {
        if !self.records.contains_key(id) {
            Err(TransactionError::DisputedTransactionNotFound)
        } else if self.records[id].client_id != client {
            Err(TransactionError::ChargebackClientMismatch)
        } else {
            self.records[id].transition_outcome(TransactionStatus::Chargeback)
        }
    }

    /// The ledger after a dispute: on success the record is `Disputed` and
    /// its amount moves from the available to the held funds of its owner.
    pub open spec fn dispute(self, id: TransactionId, client: ClientId) -> Ledger {
        if self.dispute_outcome(id, client) is Ok {
            Ledger {
                balances: self.balances.insert(
                    client,
                    self.funds_of(client).hold(self.records[id].amount),
                ),
                records: self.records.insert(
                    id,
                    self.records[id].with_status(TransactionStatus::Disputed),
                ),
                ..self
            }
        } else {
            self
        }
    }

    /// The ledger after a resolve: on success the record is `Resolved` and
    /// its amount moves from the held funds back to the available funds.
    pub open spec fn resolve(self, id: TransactionId, client: ClientId) -> Ledger {
        if self.resolve_outcome(id, client) is Ok {
            Ledger {
                balances: self.balances.insert(
                    client,
                    self.funds_of(client).release(self.records[id].amount),
                ),
                records: self.records.insert(
                    id,
                    self.records[id].with_status(TransactionStatus::Resolved),
                ),
                ..self
            }
        } else {
            self
        }
    }

    /// The ledger after a chargeback: on success the record is `Chargeback`,
    /// its amount leaves the held funds and the total, and the account is
    /// locked.
    pub open spec fn chargeback(self, id: TransactionId, client: ClientId) -> Ledger {
        if self.chargeback_outcome(id, client) is Ok {
            Ledger {
                balances: self.balances.insert(
                    client,
                    self.funds_of(client).chargeback(self.records[id].amount),
                ),
                records: self.records.insert(
                    id,
                    self.records[id].with_status(TransactionStatus::Chargeback),
                ),
                ..self
            }
        } else {
            self
        }
    }

    /// What applying `transaction` reports.
    pub open spec fn outcome(self, transaction: Transaction) -> Result<(), TransactionError> {
        match transaction {
            Transaction::Deposit { id, client_id, amount_base_units } => self.entry_outcome(
                TransactionType::Deposit,
                id,
                client_id,
                amount_base_units as int,
            ),
            Transaction::Withdrawal { id, client_id, amount_base_units } => self.entry_outcome(
                TransactionType::Withdrawal,
                id,
                client_id,
                amount_base_units as int,
            ),
            Transaction::Dispute { id, client_id } => self.dispute_outcome(id, client_id),
            Transaction::Resolve { id, client_id } => self.resolve_outcome(id, client_id),
            Transaction::Chargeback { id, client_id } => self.chargeback_outcome(id, client_id),
        }
    }

    /// The ledger after applying `transaction`.
    pub open spec fn apply(self, transaction: Transaction) -> Ledger {
        match transaction {
            Transaction::Deposit { id, client_id, amount_base_units } => self.enter(
                TransactionType::Deposit,
                id,
                client_id,
                amount_base_units as int,
            ),
            Transaction::Withdrawal { id, client_id, amount_base_units } => self.enter(
                TransactionType::Withdrawal,
                id,
                client_id,
                amount_base_units as int,
            ),
            Transaction::Dispute { id, client_id } => self.dispute(id, client_id),
            Transaction::Resolve { id, client_id } => self.resolve(id, client_id),
            Transaction::Chargeback { id, client_id } => self.chargeback(id, client_id),
        }
    }

    /// The ledger after applying a sequence of transactions in order,
    /// whatever each of them reports.
    pub open spec fn apply_all(self, transactions: Seq<Transaction>) -> Ledger
        decreases transactions.len(),
    {
        if transactions.len() == 0 {
            self
        } else {
            self.apply_all(transactions.drop_last()).apply(transactions.last())
        }
    }

    /// Applying `transaction` keeps the balance of the client it names
    /// within what the machine integers can store.
    pub open spec fn within_limits(self, transaction: Transaction) -> bool {
        self.apply(transaction).funds_of(transaction.client_id()).representable()
    }

    /// The accounting identity holds of every balance.
    pub open spec fn balanced(self) -> bool {
        forall|client: ClientId| #[trigger]
            self.balances.contains_key(client) ==> self.balances[client].balanced()
    }

    /// The record under `id` is in order: it carries the id it is kept
    /// under and an amount that is not negative, its owner has a balance,
    /// the record of a withdrawal is still `Valid`, and the owner of a
    /// record that was charged back is locked.
    pub open spec fn record_in_order(self, id: TransactionId) -> bool {
        let record = self.records[id];
        &&& record.id == id
        &&& record.amount >= 0
        &&& self.balances.contains_key(record.client_id)
        &&& record.kind == TransactionType::Withdrawal ==> record.status
            == TransactionStatus::Valid
        &&& record.status == TransactionStatus::Chargeback ==> self.funds_of(
            record.client_id,
        ).locked
    }

    /// What holds of every ledger that transactions have built up from the
    /// empty one: every balance meets the accounting identity and every
    /// record is in order.
    pub open spec fn well_formed(self) -> bool {
        &&& self.balanced()
        &&& forall|id: TransactionId| #[trigger]
            self.records.contains_key(id) ==> self.record_in_order(id)
    }
}

} // verus!
