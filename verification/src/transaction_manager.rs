//! The ledger engine: owns the balance of every client and the record of
//! every deposit and withdrawal, and applies transactions to them one at a
//! time, in the order in which they are handed in.

use balance::{Balance, Funds};
use errors::TransactionError;
use laws::{lemma_apply_keeps_balanced, lemma_apply_keeps_well_formed};
use ledger::{Ledger, LockedAccountPolicy};
use std::collections::HashMap;
pub use transaction::Transaction;
use transaction::{ClientId, TransactionId, TransactionState, TransactionType};
use vstd::prelude::*;
use vstd::std_specs::iter::IteratorSpec;

pub mod balance;
pub mod errors;
pub mod laws;
pub mod ledger;
pub mod transaction;

verus! {

broadcast use vstd::std_specs::hash::group_hash_axioms;

/// The engine. Its state is the [`Ledger`] that `view` gives.
pub struct TransactionManager {
    balances: HashMap<ClientId, Balance>,
    transactions: HashMap<TransactionId, TransactionState>,
    policy: LockedAccountPolicy,
}

impl View for TransactionManager {
    type V = Ledger;

    closed spec fn view(&self) -> Ledger {
        Ledger {
            balances: Map::new(
                |client: ClientId| self.balances@.contains_key(client),
                |client: ClientId| self.balances@[client]@,
            ),
            records: Map::new(
                |id: TransactionId| self.transactions@.contains_key(id),
                |id: TransactionId| self.transactions@[id]@,
            ),
            policy: self.policy,
        }
    }
}

/// One line of a snapshot: a client and a copy of its balance, in base
/// units.
#[derive(Debug, PartialEq, Eq, Structural, Clone, Copy)]
pub struct ClientBalance {
    pub client_id: ClientId,
    pub available: i64,
    pub held: i64,
    pub total: i64,
    pub locked: bool,
}

impl View for ClientBalance {
    type V = Funds;

    open spec fn view(&self) -> Funds {
        Funds {
            available: self.available as int,
            held: self.held as int,
            total: self.total as int,
            locked: self.locked,
        }
    }
}

impl ClientBalance {
    /// The line that shows `funds` as the balance of `client_id`.
    pub open spec fn line(client_id: ClientId, funds: Funds) -> ClientBalance {
        ClientBalance {
            client_id,
            available: funds.available as i64,
            held: funds.held as i64,
            total: funds.total as i64,
            locked: funds.locked,
        }
    }

    /// Copies a balance into a line for `client_id`.
    pub fn of(client_id: ClientId, balance: &Balance) -> (line: ClientBalance)
        ensures
            line == ClientBalance::line(client_id, balance@),
            line.client_id == client_id,
            line@ == balance@,
    {
        ClientBalance {
            client_id,
            available: balance.available(),
            held: balance.held(),
            total: balance.total(),
            locked: balance.locked(),
        }
    }
}

/// `snapshot` lists the balances of `ledger`: every line is a client of the
/// ledger with its balance, no client has two lines, and no client is left
/// out. The order of the lines is open.
pub open spec fn lists_balances(snapshot: Seq<ClientBalance>, ledger: Ledger) -> bool {
    &&& forall|i: int|
        0 <= i < snapshot.len() ==> ledger.balances.contains_key(#[trigger] snapshot[i].client_id)
            && snapshot[i]@ == ledger.balances[snapshot[i].client_id]
    &&& forall|i: int, j: int|
        0 <= i < j < snapshot.len() ==> #[trigger] snapshot[i].client_id
            != #[trigger] snapshot[j].client_id
    &&& forall|client: ClientId| #[trigger]
        ledger.balances.contains_key(client) ==> exists|i: int|
            0 <= i < snapshot.len() && #[trigger] snapshot[i].client_id == client
}

/// The lines of `snapshot` stand in ascending order of client id, each
/// client once.
pub open spec fn in_client_order(snapshot: Seq<ClientBalance>) -> bool {
    forall|i: int, j: int|
        0 <= i < j < snapshot.len() ==> #[trigger] snapshot[i].client_id
            < #[trigger] snapshot[j].client_id
}

impl TransactionManager {
    /// An engine with an empty ledger, on which locking an account has no
    /// effect on later deposits and withdrawals.
    pub fn new() -> (manager: TransactionManager)
        ensures
            manager@ == Ledger::empty(LockedAccountPolicy::Accept),
            manager@.well_formed(),
    {
        TransactionManager::with_policy(LockedAccountPolicy::Accept)
    }

    /// An engine with an empty ledger and the given policy on locked
    /// accounts.
    pub fn with_policy(policy: LockedAccountPolicy) -> (manager: TransactionManager)
        ensures
            manager@ == Ledger::empty(policy),
            manager@.well_formed(),
    {
        let manager = TransactionManager {
            balances: HashMap::new(),
            transactions: HashMap::new(),
            policy,
        };
        assert(manager@.balances =~= Map::empty());
        assert(manager@.records =~= Map::empty());
        manager
    }

    /// Applies one transaction. The result is what the ledger reports for
    /// it, and the engine's state afterwards is the ledger after it: moved
    /// on where the transaction succeeds, and left as it was where it fails,
    /// except that a withdrawal without cover makes its client known.
    ///
    /// The one demand is that the arithmetic stays within the range of the
    /// stored integers; `within_limits` tests it.
    pub fn accept(&mut self, transaction: Transaction) -> (outcome: Result<(), TransactionError>)
        requires
            old(self)@.within_limits(transaction),
        ensures
            outcome == old(self)@.outcome(transaction),
            final(self)@ == old(self)@.apply(transaction),
            old(self)@.balanced() ==> final(self)@.balanced(),
            old(self)@.well_formed() ==> final(self)@.well_formed(),
    {
        proof {
            if self@.balanced() {
                lemma_apply_keeps_balanced(self@, transaction);
            }
            if self@.well_formed() {
                lemma_apply_keeps_well_formed(self@, transaction);
            }
        }
        match transaction {
            Transaction::Deposit { id, client_id, amount_base_units: amount } => self.deposit(
                id,
                client_id,
                amount,
            ),
            Transaction::Withdrawal { id, client_id, amount_base_units: amount } => self.withdrawal(
                id,
                client_id,
                amount,
            ),
            Transaction::Dispute { id, client_id } => self.dispute(id, client_id),
            Transaction::Resolve { id, client_id } => self.resolve(id, client_id),
            Transaction::Chargeback { id, client_id } => self.chargeback(id, client_id),
        }
    }

    /// Tells whether `accept` can take `transaction`: whether applying it
    /// keeps the balance of its client within the range of the stored
    /// integers. A transaction that fails moves nothing and is always within
    /// limits.
    pub fn within_limits(&self, transaction: &Transaction) -> (fits: bool)
        ensures
            fits == self@.within_limits(*transaction),
    {
        let balance = self.balance_or_zero(transaction.client_id());
        proof {
            balance.lemma_representable();
        }
        match *transaction {
            Transaction::Deposit { id, client_id, amount_base_units: amount } => {
                self.transactions.contains_key(&id) || amount < 0 || self.refuses(client_id)
                    || balance.deposit_fits(amount)
            },
            Transaction::Withdrawal { id, client_id, amount_base_units: amount } => {
                self.transactions.contains_key(&id) || amount < 0 || self.refuses(client_id)
                    || balance.withdrawal_fits(amount)
            },
            Transaction::Dispute { id, client_id } => match self.transactions.get(&id) {
                Some(recorded) => {
                    let mut attempt = *recorded;
                    client_id != recorded.client_id() || attempt.dispute().is_err()
                        || balance.hold_fits(recorded.amount())
                },
                None => true,
            },
            Transaction::Resolve { id, client_id } => match self.transactions.get(&id) {
                Some(recorded) => {
                    let mut attempt = *recorded;
                    client_id != recorded.client_id() || attempt.resolve().is_err()
                        || balance.release_fits(recorded.amount())
                },
                None => true,
            },
            Transaction::Chargeback { id, client_id } => match self.transactions.get(&id) {
                Some(recorded) => {
                    let mut attempt = *recorded;
                    client_id != recorded.client_id() || attempt.chargeback().is_err()
                        || balance.chargeback_fits(recorded.amount())
                },
                None => true,
            },
        }
    }

    /// The lines of a snapshot in the order in which the engine walks its
    /// clients. The order is the engine's own and says nothing about the
    /// clients; it is the same for every walk of an engine that nothing has
    /// changed in between.
    pub closed spec fn listing(&self) -> Seq<ClientBalance> {
        vstd::std_specs::hash::into_iter(self.balances.iter()).map_values(
            |entry: (ClientId, Balance)| ClientBalance::line(entry.0, entry.1@),
        )
    }

    /// A copy of every client's balance, one line per client, in no
    /// particular order. The engine is left as it is, and a second call
    /// gives the same lines in the same order.
    pub fn balances(&self) -> (snapshot: Vec<ClientBalance>)
        ensures
            snapshot@ == self.listing(),
            lists_balances(snapshot@, self@),
    {
        let entries = self.balances.iter();
        let ghost listed = entries.remaining();
        let mut snapshot: Vec<ClientBalance> = Vec::new();
        for entry in walk: entries
            invariant
                walk.seq() == listed,
                snapshot@.len() == walk.index(),
                forall|i: int|
                    0 <= i < snapshot@.len() ==> #[trigger] snapshot@[i] == ClientBalance::line(
                        *listed[i].0,
                        (*listed[i].1)@,
                    ) && snapshot@[i].client_id == *listed[i].0 && snapshot@[i]@ == (*listed[i].1)@,
        {
            let (client_id, balance) = entry;
            snapshot.push(ClientBalance::of(*client_id, balance));
        }
        proof {
            let stored = self.balances@;
            assert(snapshot@.len() == listed.len());
            assert(snapshot@ =~= self.listing());
            assert forall|i: int| 0 <= i < snapshot@.len() implies self@.balances.contains_key(
                #[trigger] snapshot@[i].client_id,
            ) && snapshot@[i]@ == self@.balances[snapshot@[i].client_id] by {
                assert(stored.contains_key(*listed[i].0));
            }
            assert forall|i: int, j: int|
                0 <= i < j < snapshot@.len() implies #[trigger] snapshot@[i].client_id
                != #[trigger] snapshot@[j].client_id by {
                assert(stored.contains_key(*listed[i].0));
                assert(stored.contains_key(*listed[j].0));
                assert(listed[i] != listed[j]);
            }
            assert forall|client: ClientId| #[trigger]
                self@.balances.contains_key(client) implies exists|i: int|
                0 <= i < snapshot@.len() && #[trigger] snapshot@[i].client_id == client by {
                assert(stored.contains_key(client));
                assert(listed.contains((&client, &stored[client])));
                let i = choose|i: int|
                    0 <= i < listed.len() && listed[i] == (&client, &stored[client]);
                assert(snapshot@[i].client_id == client);
            }
        }
        snapshot
    }

    /// A copy of every client's balance, one line per client, in ascending
    /// order of client id: the order in which a balance table shows them.
    pub fn balances_by_client(&self) -> (snapshot: Vec<ClientBalance>)
        ensures
            lists_balances(snapshot@, self@),
            in_client_order(snapshot@),
    {
        let mut snapshot: Vec<ClientBalance> = Vec::new();
        let mut next: u32 = 0;
        while next <= 0xffff
            invariant
                next <= 0x1_0000,
                in_client_order(snapshot@),
                forall|i: int|
                    0 <= i < snapshot@.len() ==> (#[trigger] snapshot@[i].client_id) < next
                        && self@.balances.contains_key(snapshot@[i].client_id) && snapshot@[i]@
                        == self@.balances[snapshot@[i].client_id],
                forall|client: ClientId|
                    client < next && #[trigger] self@.balances.contains_key(client) ==> exists|
                        i: int,
                    |
                        0 <= i < snapshot@.len() && #[trigger] snapshot@[i].client_id == client,
            decreases 0x1_0000 - next,
        {
            let client_id = next as ClientId;
            let ghost before = snapshot@;
            if let Some(balance) = self.balances.get(&client_id) {
                snapshot.push(ClientBalance::of(client_id, balance));
            }
            proof {
                assert forall|client: ClientId|
                    client < next + 1 && #[trigger] self@.balances.contains_key(
                        client,
                    ) implies exists|i: int|
                    0 <= i < snapshot@.len() && #[trigger] snapshot@[i].client_id == client by {
                    if client < next {
                        let i = choose|i: int|
                            0 <= i < before.len() && #[trigger] before[i].client_id == client;
                        assert(snapshot@[i].client_id == client);
                    } else {
                        assert(snapshot@[snapshot@.len() - 1].client_id == client);
                    }
                }
            }
            next += 1;
        }
        snapshot
    }

    /// The policy on locked accounts that the engine was made with.
    pub fn policy(&self) -> (policy: LockedAccountPolicy)
        ensures
            policy == self@.policy,
    {
        self.policy
    }

    /// The balance of `client_id`, if the client has been seen.
    pub fn balance(&self, client_id: ClientId) -> (found: Option<&Balance>)
        ensures
            found is Some == self@.balances.contains_key(client_id),
            found matches Some(balance) ==> balance@ == self@.balances[client_id],
    {
        self.balances.get(&client_id)
    }

    /// The record that `transaction_id` names, if there is one.
    pub fn transaction(&self, transaction_id: TransactionId) -> (found: Option<&TransactionState>)
        ensures
            found is Some == self@.records.contains_key(transaction_id),
            found matches Some(record) ==> record@ == self@.records[transaction_id],
    {
        self.transactions.get(&transaction_id)
    }

    /// A copy of the balance of `client_id`; the zero balance where the
    /// client is new.
    fn balance_or_zero(&self, client_id: ClientId) -> (balance: Balance)
        ensures
            balance@ == self@.funds_of(client_id),
    {
        match self.balances.get(&client_id) {
            Some(balance) => *balance,
            None => Balance::new(),
        }
    }

    /// The balance of `client_id`, created at zero where the client is new.
    fn get_balance_mut(&mut self, client_id: ClientId) -> (balance: &mut Balance)
        ensures
            balance@ == old(self)@.funds_of(client_id),
            final(self)@ == (Ledger {
                balances: old(self)@.balances.insert(client_id, final(balance)@),
                ..old(self)@
            }),
    {
        let balance = self.balances.entry(client_id).or_insert(Balance::new());
        balance
    }

    /// Records a transaction under its id, which no record has yet.
    fn insert_transaction(&mut self, transaction: TransactionState)
        requires
            !old(self)@.records.contains_key(transaction@.id),
        ensures
            final(self)@ == (Ledger {
                records: old(self)@.records.insert(transaction@.id, transaction@),
                ..old(self)@
            }),
    {
        let transaction_id = transaction.id();
        let previous = self.transactions.insert(transaction_id, transaction);
        assert(previous is None);
    }

    /// Whether the policy on locked accounts turns away deposits and
    /// withdrawals for `client_id`.
    fn refuses(&self, client_id: ClientId) -> (refused: bool)
        ensures
            refused == self@.refuses(client_id),
    {
        match self.policy {
            LockedAccountPolicy::Accept => false,
            LockedAccountPolicy::Reject => match self.balances.get(&client_id) {
                Some(balance) => balance.locked(),
                None => false,
            },
        }
    }

    /// Applies a deposit: see `Ledger::enter`.
    fn deposit(
        &mut self,
        transaction_id: TransactionId,
        client_id: ClientId,
        amount: i64,
    ) -> (outcome: Result<(), TransactionError>)
        requires
            old(self)@.enter(
                TransactionType::Deposit,
                transaction_id,
                client_id,
                amount as int,
            ).funds_of(client_id).representable(),
        ensures
            outcome == old(self)@.entry_outcome(
                TransactionType::Deposit,
                transaction_id,
                client_id,
                amount as int,
            ),
            final(self)@ == old(self)@.enter(
                TransactionType::Deposit,
                transaction_id,
                client_id,
                amount as int,
            ),
    {
        if self.transactions.contains_key(&transaction_id) {
            return Err(TransactionError::DuplicateTransaction);
        }
        let transaction_state = TransactionState::new(
            TransactionType::Deposit,
            transaction_id,
            client_id,
            amount,
        )?;
        if self.refuses(client_id) {
            return Err(TransactionError::AccountLocked);
        }
        let balance = self.get_balance_mut(client_id);
        balance.deposit(amount);
        self.insert_transaction(transaction_state);
        Ok(())
    }

    /// Applies a withdrawal: see `Ledger::enter`.
    fn withdrawal(
        &mut self,
        transaction_id: TransactionId,
        client_id: ClientId,
        amount: i64,
    ) -> (outcome: Result<(), TransactionError>)
        requires
            old(self)@.enter(
                TransactionType::Withdrawal,
                transaction_id,
                client_id,
                amount as int,
            ).funds_of(client_id).representable(),
        ensures
            outcome == old(self)@.entry_outcome(
                TransactionType::Withdrawal,
                transaction_id,
                client_id,
                amount as int,
            ),
            final(self)@ == old(self)@.enter(
                TransactionType::Withdrawal,
                transaction_id,
                client_id,
                amount as int,
            ),
    {
        if self.transactions.contains_key(&transaction_id) {
            return Err(TransactionError::DuplicateTransaction);
        }
        let transaction_state = TransactionState::new(
            TransactionType::Withdrawal,
            transaction_id,
            client_id,
            amount,
        )?;
        if self.refuses(client_id) {
            return Err(TransactionError::AccountLocked);
        }
        let balance = self.get_balance_mut(client_id);
        balance.withdrawal(amount)?;
        self.insert_transaction(transaction_state);
        Ok(())
    }

    /// Applies a dispute: see `Ledger::dispute`.
    fn dispute(&mut self, transaction_id: TransactionId, client_id: ClientId) -> (outcome: Result<
        (),
        TransactionError,
    >)
        requires
            old(self)@.dispute(transaction_id, client_id).funds_of(client_id).representable(),
        ensures
            outcome == old(self)@.dispute_outcome(transaction_id, client_id),
            final(self)@ == old(self)@.dispute(transaction_id, client_id),
    {
        if let Some(recorded) = self.transactions.get(&transaction_id) {
            if client_id != recorded.client_id() {
                return Err(TransactionError::DisputeClientMismatch);
            }
            let amount = recorded.amount();
            let mut disputed_transaction = *recorded;
            disputed_transaction.dispute()?;
            self.transactions.insert(transaction_id, disputed_transaction);
            let balance = self.get_balance_mut(client_id);
            balance.hold(amount);
            Ok(())
        } else {
            Err(TransactionError::DisputedTransactionNotFound)
        }
    }

    /// Applies a resolve: see `Ledger::resolve`.
    fn resolve(&mut self, transaction_id: TransactionId, client_id: ClientId) -> (outcome: Result<
        (),
        TransactionError,
    >)
        requires
            old(self)@.resolve(transaction_id, client_id).funds_of(client_id).representable(),
        ensures
            outcome == old(self)@.resolve_outcome(transaction_id, client_id),
            final(self)@ == old(self)@.resolve(transaction_id, client_id),
    {
        if let Some(recorded) = self.transactions.get(&transaction_id) {
            if client_id != recorded.client_id() {
                return Err(TransactionError::ResolveClientMismatch);
            }
            let amount = recorded.amount();
            let mut disputed_transaction = *recorded;
            disputed_transaction.resolve()?;
            self.transactions.insert(transaction_id, disputed_transaction);
            let balance = self.get_balance_mut(client_id);
            balance.release(amount);
            Ok(())
        } else {
            Err(TransactionError::DisputedTransactionNotFound)
        }
    }

    /// Applies a chargeback: see `Ledger::chargeback`.
    fn chargeback(&mut self, transaction_id: TransactionId, client_id: ClientId) -> (outcome:
        Result<(), TransactionError>)
        requires
            old(self)@.chargeback(transaction_id, client_id).funds_of(client_id).representable(),
        ensures
            outcome == old(self)@.chargeback_outcome(transaction_id, client_id),
            final(self)@ == old(self)@.chargeback(transaction_id, client_id),
    {
        if let Some(recorded) = self.transactions.get(&transaction_id) {
            if client_id != recorded.client_id() {
                return Err(TransactionError::ChargebackClientMismatch);
            }
            let amount = recorded.amount();
            let mut disputed_transaction = *recorded;
            disputed_transaction.chargeback()?;
            self.transactions.insert(transaction_id, disputed_transaction);
            let balance = self.get_balance_mut(client_id);
            balance.chargeback(amount);
            Ok(())
        } else {
            Err(TransactionError::DisputedTransactionNotFound)
        }
    }
}

} // verus!
