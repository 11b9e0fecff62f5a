use payments_engine::transaction_manager::errors::TransactionError;
use payments_engine::transaction_manager::transaction::{
    Transaction, TransactionState, TransactionStatus, TransactionType,
};

const ALL: [TransactionStatus; 4] = [
    TransactionStatus::Valid,
    TransactionStatus::Disputed,
    TransactionStatus::Resolved,
    TransactionStatus::Chargeback,
];

#[test]
fn transition_table_has_exactly_three_rows() {
    for from in ALL {
        for to in ALL {
            let expected = matches!(
                (from, to),
                (TransactionStatus::Valid, TransactionStatus::Disputed)
                    | (TransactionStatus::Disputed, TransactionStatus::Resolved)
                    | (TransactionStatus::Disputed, TransactionStatus::Chargeback)
            );
            assert_eq!(from.permits(&to), expected);
        }
    }
}

#[test]
fn status_names_are_written_out() {
    assert_eq!(TransactionStatus::Valid.name(), "Valid");
    assert_eq!(TransactionStatus::Disputed.name(), "Disputed");
    assert_eq!(TransactionStatus::Resolved.name(), "Resolved");
    assert_eq!(TransactionStatus::Chargeback.name(), "Chargeback");
}

#[test]
fn new_record_keeps_what_it_was_given() {
    let state = TransactionState::new(TransactionType::Withdrawal, 9, 3, 250).unwrap();
    assert_eq!(*state.transaction_type(), TransactionType::Withdrawal);
    assert_eq!(state.id(), 9);
    assert_eq!(state.client_id(), 3);
    assert_eq!(state.amount(), 250);
    assert_eq!(*state.status(), TransactionStatus::Valid);
}

#[test]
fn new_record_may_carry_a_zero_amount() {
    let state = TransactionState::new(TransactionType::Deposit, 1, 1, 0).unwrap();
    assert_eq!(state.amount(), 0);
}

#[test]
fn disputing_a_withdrawal_is_not_supported() {
    let mut state = TransactionState::new(TransactionType::Withdrawal, 1, 1, 100).unwrap();
    assert_eq!(state.dispute(), Err(TransactionError::DisputeWithdrawalNotSupported));
    assert_eq!(*state.status(), TransactionStatus::Valid);
}

#[test]
fn disputing_twice_is_an_invalid_transition() {
    let mut state = TransactionState::new(TransactionType::Deposit, 1, 1, 100).unwrap();
    assert_eq!(state.dispute(), Ok(()));
    assert_eq!(
        state.dispute(),
        Err(TransactionError::InvalidStateTransition(
            TransactionStatus::Disputed,
            TransactionStatus::Disputed
        ))
    );
    assert_eq!(*state.status(), TransactionStatus::Disputed);
}

#[test]
fn resolved_and_chargeback_are_final() {
    for last in [TransactionStatus::Resolved, TransactionStatus::Chargeback] {
        let mut state = TransactionState::new(TransactionType::Deposit, 1, 1, 100).unwrap();
        assert_eq!(state.dispute(), Ok(()));
        assert_eq!(state.transition(last), Ok(()));
        assert_eq!(
            state.dispute(),
            Err(TransactionError::InvalidStateTransition(last, TransactionStatus::Disputed))
        );
        assert_eq!(
            state.resolve(),
            Err(TransactionError::InvalidStateTransition(last, TransactionStatus::Resolved))
        );
        assert_eq!(
            state.chargeback(),
            Err(TransactionError::InvalidStateTransition(last, TransactionStatus::Chargeback))
        );
        assert_eq!(*state.status(), last);
    }
}

#[test]
fn no_status_returns_to_valid() {
    for from in ALL {
        let mut state = TransactionState::new(TransactionType::Deposit, 1, 1, 100).unwrap();
        if from != TransactionStatus::Valid {
            assert_eq!(state.dispute(), Ok(()));
        }
        if from == TransactionStatus::Resolved || from == TransactionStatus::Chargeback {
            assert_eq!(state.transition(from), Ok(()));
        }
        assert_eq!(*state.status(), from);
        assert_eq!(
            state.transition(TransactionStatus::Valid),
            Err(TransactionError::InvalidStateTransition(from, TransactionStatus::Valid))
        );
    }
}

#[test]
fn transaction_tells_its_client_and_id() {
    let all = [
        Transaction::Deposit { id: 11, client_id: 5, amount_base_units: 1 },
        Transaction::Withdrawal { id: 11, client_id: 5, amount_base_units: 1 },
        Transaction::Dispute { id: 11, client_id: 5 },
        Transaction::Resolve { id: 11, client_id: 5 },
        Transaction::Chargeback { id: 11, client_id: 5 },
    ];
    for transaction in all {
        assert_eq!(transaction.id(), 11);
        assert_eq!(transaction.client_id(), 5);
    }
}
