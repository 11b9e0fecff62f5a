//! What holds of the ledger whatever transactions it is given. Each law is a
//! proof over the definitions that the engine's contracts use.

use super::balance::Funds;
use super::errors::TransactionError;
use super::ledger::{Ledger, LockedAccountPolicy};
use super::transaction::{ClientId, Transaction, TransactionId, TransactionStatus};
use vstd::prelude::*;

verus! {

/// Every operation on a balance keeps the accounting identity. A chargeback
/// takes its amount from the held funds and from the total alike, so the
/// identity survives it too, also where the available funds are below zero.
pub proof fn lemma_funds_stay_balanced(funds: Funds, amount: int)
    requires
        funds.balanced(),
    ensures
        Funds::zero().balanced(),
        funds.deposit(amount).balanced(),
        funds.withdraw(amount).balanced(),
        funds.hold(amount).balanced(),
        funds.release(amount).balanced(),
        funds.chargeback(amount).balanced(),
{
}

/// Holding an amount and releasing it again gives back the balance as it
/// was.
pub proof fn lemma_release_undoes_hold(funds: Funds, amount: int)
    ensures
        funds.hold(amount).release(amount) == funds,
{
}

/// Applying a transaction keeps the accounting identity of every balance.
pub proof fn lemma_apply_keeps_balanced(ledger: Ledger, transaction: Transaction)
    requires
        ledger.balanced(),
    ensures
        ledger.apply(transaction).balanced(),
{
    assert(Funds::zero().balanced());
}

/// In every state that the empty ledger can reach, through transactions
/// that succeed and transactions that fail, the total of every balance is
/// its available funds plus its held funds.
pub proof fn lemma_reachable_is_balanced(
    policy: LockedAccountPolicy,
    transactions: Seq<Transaction>,
)
    ensures
        Ledger::empty(policy).apply_all(transactions).balanced(),
    decreases transactions.len(),
{
    if transactions.len() > 0 {
        lemma_reachable_is_balanced(policy, transactions.drop_last());
        lemma_apply_keeps_balanced(
            Ledger::empty(policy).apply_all(transactions.drop_last()),
            transactions.last(),
        );
    }
}

/// Applying a transaction to a well-formed ledger gives a well-formed
/// ledger.
pub proof fn lemma_apply_keeps_well_formed(ledger: Ledger, transaction: Transaction)
    requires
        ledger.well_formed(),
    ensures
        ledger.apply(transaction).well_formed(),
{
    let next = ledger.apply(transaction);
    lemma_apply_keeps_balanced(ledger, transaction);
    assert forall|id: TransactionId| #[trigger]
        next.records.contains_key(id) implies next.record_in_order(id) by {
        if ledger.records.contains_key(id) {
            assert(ledger.record_in_order(id));
        }
    }
}

/// Every state that the empty ledger can reach is well formed.
pub proof fn lemma_reachable_is_well_formed(
    policy: LockedAccountPolicy,
    transactions: Seq<Transaction>,
)
    ensures
        Ledger::empty(policy).apply_all(transactions).well_formed(),
    decreases transactions.len(),
{
    if transactions.len() > 0 {
        lemma_reachable_is_well_formed(policy, transactions.drop_last());
        lemma_apply_keeps_well_formed(
            Ledger::empty(policy).apply_all(transactions.drop_last()),
            transactions.last(),
        );
    }
}

/// A record is made by nothing but a deposit or withdrawal that succeeds,
/// and then under the id of that transaction; the dispute family and every
/// failure leave the set of recorded ids as it is.
pub proof fn lemma_what_is_recorded(ledger: Ledger, transaction: Transaction)
    ensures
        ledger.apply(transaction).records.dom() == if (transaction is Deposit
            || transaction is Withdrawal) && ledger.outcome(transaction) is Ok {
            ledger.records.dom().insert(transaction.id())
        } else {
            ledger.records.dom()
        },
{
}

/// A transaction touches no balance but that of the client it names.
pub proof fn lemma_other_clients_untouched(
    ledger: Ledger,
    transaction: Transaction,
    other: ClientId,
)
    requires
        other != transaction.client_id(),
    ensures
        ledger.apply(transaction).balances.contains_key(other) == ledger.balances.contains_key(
            other,
        ),
        ledger.apply(transaction).funds_of(other) == ledger.funds_of(other),
{
}

/// A transaction that fails records nothing, changes no record, and leaves
/// the funds of every client as they were.
pub proof fn lemma_failure_changes_nothing(
    ledger: Ledger,
    transaction: Transaction,
    client: ClientId,
)
    requires
        ledger.outcome(transaction) is Err,
    ensures
        ledger.apply(transaction).records == ledger.records,
        ledger.apply(transaction).funds_of(client) == ledger.funds_of(client),
        ledger.apply(transaction).policy == ledger.policy,
{
}

/// A deposit or withdrawal under an id that is already recorded is refused
/// as a duplicate and changes nothing.
pub proof fn lemma_recorded_id_is_refused(ledger: Ledger, transaction: Transaction)
    requires
        transaction is Deposit || transaction is Withdrawal,
        ledger.records.contains_key(transaction.id()),
    ensures
        ledger.outcome(transaction) == Err::<(), _>(TransactionError::DuplicateTransaction),
        ledger.apply(transaction) == ledger,
{
}

/// Of two deposits with one id, the second is refused as a duplicate and
/// changes nothing, whatever client and amount it names. The first is one
/// that the ledger takes or has taken: its amount is not negative and its
/// account is open to deposits.
pub proof fn lemma_second_deposit_is_duplicate(
    ledger: Ledger,
    id: TransactionId,
    first_client: ClientId,
    first_amount: i64,
    second_client: ClientId,
    second_amount: i64,
)
    requires
        first_amount >= 0,
        !ledger.refuses(first_client),
    ensures
        ({
            let first = Transaction::Deposit {
                id,
                client_id: first_client,
                amount_base_units: first_amount,
            };
            let second = Transaction::Deposit {
                id,
                client_id: second_client,
                amount_base_units: second_amount,
            };
            let after = ledger.apply(first);
            &&& after.outcome(second) == Err::<(), _>(TransactionError::DuplicateTransaction)
            &&& after.apply(second) == after
        }),
{
}

/// A withdrawal of more than the available funds is refused for want of
/// funds: no record is made, no record changes, and the funds of every
/// client, the one who asked included, stay as they were. The withdrawal is
/// one that gets as far as the funds: its id is new, its amount is not
/// negative and its account is open to withdrawals.
pub proof fn lemma_overdraw_is_refused(
    ledger: Ledger,
    id: TransactionId,
    client: ClientId,
    amount: i64,
    any_client: ClientId,
)
    requires
        !ledger.records.contains_key(id),
        amount >= 0,
        !ledger.refuses(client),
        amount > ledger.funds_of(client).available,
    ensures
        ({
            let withdrawal = Transaction::Withdrawal {
                id,
                client_id: client,
                amount_base_units: amount,
            };
            &&& ledger.outcome(withdrawal) == Err::<(), _>(TransactionError::InsufficientFunds)
            &&& ledger.apply(withdrawal).records == ledger.records
            &&& ledger.apply(withdrawal).funds_of(any_client) == ledger.funds_of(any_client)
        }),
{
}

/// A dispute that succeeds, followed by a resolve of the same record by the
/// same client, succeeds too and gives the client back the balance from
/// before the dispute, field for field. The record ends as `Resolved`.
pub proof fn lemma_dispute_then_resolve(ledger: Ledger, id: TransactionId, client: ClientId)
    requires
        ledger.outcome(Transaction::Dispute { id, client_id: client }) is Ok,
    ensures
        ({
            let disputed = ledger.apply(Transaction::Dispute { id, client_id: client });
            let resolve = Transaction::Resolve { id, client_id: client };
            let amount = ledger.records[id].amount;
            &&& disputed.funds_of(client) == ledger.funds_of(client).hold(amount)
            &&& disputed.outcome(resolve) is Ok
            &&& disputed.apply(resolve).funds_of(client) == ledger.funds_of(client)
            &&& disputed.apply(resolve).records == ledger.records.insert(
                id,
                ledger.records[id].with_status(TransactionStatus::Resolved),
            )
        }),
{
    let disputed = ledger.apply(Transaction::Dispute { id, client_id: client });
    let resolved = disputed.apply(Transaction::Resolve { id, client_id: client });
    assert(resolved.records =~= ledger.records.insert(
        id,
        ledger.records[id].with_status(TransactionStatus::Resolved),
    ));
}

/// A dispute that succeeds, followed by a chargeback of the same record by
/// the same client, succeeds too. The amount of the record leaves the held
/// funds and the total, the available funds stay where the dispute put
/// them, and the account is locked. The record ends as `Chargeback`.
pub proof fn lemma_dispute_then_chargeback(ledger: Ledger, id: TransactionId, client: ClientId)
    requires
        ledger.outcome(Transaction::Dispute { id, client_id: client }) is Ok,
    ensures
        ({
            let disputed = ledger.apply(Transaction::Dispute { id, client_id: client });
            let chargeback = Transaction::Chargeback { id, client_id: client };
            let amount = ledger.records[id].amount;
            let before = ledger.funds_of(client);
            let held = disputed.funds_of(client);
            let after = disputed.apply(chargeback).funds_of(client);
            &&& disputed.outcome(chargeback) is Ok
            &&& after.held == held.held - amount
            &&& after.total == held.total - amount
            &&& after.available == held.available
            &&& after.locked
            &&& after.held == before.held
            &&& after.total == before.total - amount
            &&& after.available == before.available - amount
            &&& disputed.apply(chargeback).records == ledger.records.insert(
                id,
                ledger.records[id].with_status(TransactionStatus::Chargeback),
            )
        }),
{
    let disputed = ledger.apply(Transaction::Dispute { id, client_id: client });
    let charged = disputed.apply(Transaction::Chargeback { id, client_id: client });
    assert(charged.records =~= ledger.records.insert(
        id,
        ledger.records[id].with_status(TransactionStatus::Chargeback),
    ));
}

/// A record that is `Resolved` or `Chargeback` has reached its end: every
/// dispute, resolve and chargeback that names it fails, and the ledger
/// stays as it is.
pub proof fn lemma_closed_record_stays_closed(ledger: Ledger, transaction: Transaction)
    requires
        transaction is Dispute || transaction is Resolve || transaction is Chargeback,
        ledger.records.contains_key(transaction.id()),
        ledger.records[transaction.id()].status == TransactionStatus::Resolved
            || ledger.records[transaction.id()].status
            == TransactionStatus::Chargeback,
    ensures
        ledger.outcome(transaction) is Err,
        ledger.apply(transaction) == ledger,
{
}

/// A dispute, resolve or chargeback by a client that does not own the
/// record is refused with the mismatch error of its kind and changes
/// nothing.
pub proof fn lemma_client_mismatch_is_refused(ledger: Ledger, transaction: Transaction)
    requires
        transaction is Dispute || transaction is Resolve || transaction is Chargeback,
        ledger.records.contains_key(transaction.id()),
        ledger.records[transaction.id()].client_id != transaction.client_id(),
    ensures
        transaction is Dispute ==> ledger.outcome(transaction) == Err::<(), _>(
            TransactionError::DisputeClientMismatch,
        ),
        transaction is Resolve ==> ledger.outcome(transaction) == Err::<(), _>(
            TransactionError::ResolveClientMismatch,
        ),
        transaction is Chargeback ==> ledger.outcome(transaction) == Err::<(), _>(
            TransactionError::ChargebackClientMismatch,
        ),
        ledger.apply(transaction) == ledger,
{
}

/// An account that is locked stays locked, and an open account is locked by
/// nothing but a chargeback that succeeds.
pub proof fn lemma_lock_is_permanent(ledger: Ledger, transaction: Transaction, client: ClientId)
    ensures
        ledger.funds_of(client).locked ==> ledger.apply(transaction).funds_of(client).locked,
        !ledger.funds_of(client).locked && ledger.apply(transaction).funds_of(client).locked
            ==> transaction is Chargeback && transaction.client_id() == client && ledger.outcome(
            transaction,
        ) is Ok,
{
}

/// Where locking has no effect on ingestion, no transaction is ever refused
/// because its account is locked.
pub proof fn lemma_accept_policy_never_refuses(ledger: Ledger, transaction: Transaction)
    requires
        ledger.policy == LockedAccountPolicy::Accept,
    ensures
        ledger.outcome(transaction) != Err::<(), _>(TransactionError::AccountLocked),
{
}

/// Records are kept for good: applying a transaction removes no record and
/// no client, and changes nothing of a record but its status.
pub proof fn lemma_records_are_kept(ledger: Ledger, transaction: Transaction, id: TransactionId)
    requires
        ledger.records.contains_key(id),
    ensures
        ledger.apply(transaction).records.contains_key(id),
        ledger.apply(transaction).records[id] == ledger.records[id].with_status(
            ledger.apply(transaction).records[id].status,
        ),
        forall|client: ClientId| #[trigger]
            ledger.balances.contains_key(client) ==> ledger.apply(
                transaction,
            ).balances.contains_key(client),
{
}

} // verus!
