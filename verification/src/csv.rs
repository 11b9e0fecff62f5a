//! Decoded input rows and their conversion into transactions. A row arrives
//! with its amount already scaled to base units; reading the tabular source
//! and scaling the decimal amount are the caller's part.

use crate::transaction_manager::errors::TransactionError;
use crate::transaction_manager::ledger::Ledger;
use crate::transaction_manager::Transaction;
use vstd::prelude::*;

verus! {

/// Why a decoded row does not make a transaction.
#[derive(Debug, PartialEq, Eq, Structural, Clone, Copy)]
pub enum CsvError {
    /// The amount of a deposit or withdrawal is zero or negative.
    InvalidAmount,
    /// A deposit or withdrawal carries no amount.
    MissingAmount,
}

/// The kind of a row, one for each of the tags `deposit`, `withdrawal`,
/// `dispute`, `resolve` and `chargeback`.
#[derive(Debug, PartialEq, Eq, Structural, Clone, Copy)]
pub enum OrderType {
    Deposit,
    Withdrawal,
    Dispute,
    Resolve,
    Chargeback,
}

/// One decoded row. `amount` is in base units, ten thousand to the unit.
#[derive(Debug, PartialEq, Eq, Structural, Clone, Copy)]
pub struct TransactionDto {
    pub order_type: OrderType,
    pub client: u16,
    pub tx: u32,
    pub amount: Option<i64>,
}

impl TransactionDto {
    /// The amount that a deposit or withdrawal needs: present and above
    /// zero.
    pub open spec fn required_amount(self) -> Result<i64, CsvError> {
        match self.amount {
            None => Err(CsvError::MissingAmount),
            Some(amount) => if amount <= 0 {
                Err(CsvError::InvalidAmount)
            } else {
                Ok(amount)
            },
        }
    }

    /// The transaction that the row stands for. A deposit or withdrawal
    /// needs its amount; the dispute family carries none, and an amount that
    /// such a row holds is passed over.
    pub open spec fn decoded(self) -> Result<Transaction, CsvError> {
        match self.order_type {
            OrderType::Deposit => match self.required_amount() {
                Ok(amount) => Ok(
                    Transaction::Deposit {
                        id: self.tx,
                        client_id: self.client,
                        amount_base_units: amount,
                    },
                ),
                Err(error) => Err(error),
            },
            OrderType::Withdrawal => match self.required_amount() {
                Ok(amount) => Ok(
                    Transaction::Withdrawal {
                        id: self.tx,
                        client_id: self.client,
                        amount_base_units: amount,
                    },
                ),
                Err(error) => Err(error),
            },
            OrderType::Dispute => Ok(Transaction::Dispute { id: self.tx, client_id: self.client }),
            OrderType::Resolve => Ok(Transaction::Resolve { id: self.tx, client_id: self.client }),
            OrderType::Chargeback => Ok(
                Transaction::Chargeback { id: self.tx, client_id: self.client },
            ),
        }
    }

    /// Turns the row into a transaction, or says why it is none.
    pub fn to_transaction(&self) -> (transaction: Result<Transaction, CsvError>)
        ensures
            transaction == self.decoded(),
    {
        match self.order_type {
            OrderType::Deposit => {
                let amount_base_units: i64;
                if let Some(amount) = self.amount {
                    amount_base_units = amount;
                } else {
                    return Err(CsvError::MissingAmount);
                }
                if amount_base_units <= 0 {
                    Err(CsvError::InvalidAmount)
                } else {
                    Ok(
                        Transaction::Deposit {
                            id: self.tx,
                            client_id: self.client,
                            amount_base_units,
                        },
                    )
                }
            },
            OrderType::Withdrawal => {
                let amount_base_units: i64;
                if let Some(amount) = self.amount {
                    amount_base_units = amount;
                } else {
                    return Err(CsvError::MissingAmount);
                }
                if amount_base_units <= 0 {
                    Err(CsvError::InvalidAmount)
                } else {
                    Ok(
                        Transaction::Withdrawal {
                            id: self.tx,
                            client_id: self.client,
                            amount_base_units,
                        },
                    )
                }
            },
            OrderType::Dispute => Ok(Transaction::Dispute { id: self.tx, client_id: self.client }),
            OrderType::Resolve => Ok(Transaction::Resolve { id: self.tx, client_id: self.client }),
            OrderType::Chargeback => Ok(
                Transaction::Chargeback { id: self.tx, client_id: self.client },
            ),
        }
    }
}

/// Decoding lets only amounts above zero through, so a transaction that a
/// row decodes to never fails in a ledger for a negative amount.
pub proof fn lemma_decoded_amount_is_positive(row: TransactionDto, ledger: Ledger)
    requires
        row.decoded() is Ok,
    ensures
        ({
            let transaction = row.decoded()->Ok_0;
            &&& transaction matches Transaction::Deposit { amount_base_units, .. }
                ==> amount_base_units > 0
            &&& transaction matches Transaction::Withdrawal { amount_base_units, .. }
                ==> amount_base_units > 0
            &&& ledger.outcome(transaction) != Err::<(), _>(TransactionError::AmountIsNegative)
        }),
{
}

} // verus!
