use payments_engine::csv::{CsvError, OrderType, TransactionDto};
use payments_engine::transaction_manager::Transaction;

fn record(order_type: OrderType, amount: Option<i64>) -> TransactionDto {
    TransactionDto { order_type, client: 7, tx: 42, amount }
}

#[test]
fn deposit_record_becomes_a_deposit() {
    assert_eq!(
        record(OrderType::Deposit, Some(15_000)).to_transaction(),
        Ok(Transaction::Deposit { id: 42, client_id: 7, amount_base_units: 15_000 })
    );
}

#[test]
fn withdrawal_record_becomes_a_withdrawal() {
    assert_eq!(
        record(OrderType::Withdrawal, Some(1)).to_transaction(),
        Ok(Transaction::Withdrawal { id: 42, client_id: 7, amount_base_units: 1 })
    );
}

#[test]
fn deposit_and_withdrawal_need_an_amount() {
    assert_eq!(record(OrderType::Deposit, None).to_transaction(), Err(CsvError::MissingAmount));
    assert_eq!(record(OrderType::Withdrawal, None).to_transaction(), Err(CsvError::MissingAmount));
}

#[test]
fn zero_and_negative_amounts_are_invalid() {
    assert_eq!(record(OrderType::Deposit, Some(0)).to_transaction(), Err(CsvError::InvalidAmount));
    assert_eq!(record(OrderType::Deposit, Some(-1)).to_transaction(), Err(CsvError::InvalidAmount));
    assert_eq!(
        record(OrderType::Withdrawal, Some(0)).to_transaction(),
        Err(CsvError::InvalidAmount)
    );
    assert_eq!(
        record(OrderType::Withdrawal, Some(i64::MIN)).to_transaction(),
        Err(CsvError::InvalidAmount)
    );
}

#[test]
fn dispute_family_carries_no_amount() {
    assert_eq!(
        record(OrderType::Dispute, None).to_transaction(),
        Ok(Transaction::Dispute { id: 42, client_id: 7 })
    );
    assert_eq!(
        record(OrderType::Resolve, None).to_transaction(),
        Ok(Transaction::Resolve { id: 42, client_id: 7 })
    );
    assert_eq!(
        record(OrderType::Chargeback, None).to_transaction(),
        Ok(Transaction::Chargeback { id: 42, client_id: 7 })
    );
}

#[test]
fn dispute_family_passes_over_an_amount() {
    assert_eq!(
        record(OrderType::Dispute, Some(-5)).to_transaction(),
        Ok(Transaction::Dispute { id: 42, client_id: 7 })
    );
    assert_eq!(
        record(OrderType::Chargeback, Some(0)).to_transaction(),
        Ok(Transaction::Chargeback { id: 42, client_id: 7 })
    );
}

#[test]
fn largest_amount_is_decoded_as_it_is() {
    assert_eq!(
        record(OrderType::Deposit, Some(i64::MAX)).to_transaction(),
        Ok(Transaction::Deposit { id: 42, client_id: 7, amount_base_units: i64::MAX })
    );
}
