//! Per-client accounting: the four balance fields and the arithmetic on them.

use super::errors::TransactionError;
use vstd::prelude::*;

verus! {

/// The mathematical content of a balance. Amounts are unbounded integers of
/// base units, so the arithmetic below never wraps.
pub struct Funds {
    pub available: int,
    pub held: int,
    pub total: int,
    pub locked: bool,
}

impl Funds {
    /// The balance of a client that has not been seen yet.
    pub open spec fn zero() -> Funds {
        Funds { available: 0, held: 0, total: 0, locked: false }
    }

    /// The accounting identity: the total is what is available plus what is
    /// held.
    pub open spec fn balanced(self) -> bool {
        self.total == self.available + self.held
    }

    /// Every field fits the machine integer that stores it.
    pub open spec fn representable(self) -> bool {
        &&& i64::MIN <= self.available <= i64::MAX
        &&& i64::MIN <= self.held <= i64::MAX
        &&& i64::MIN <= self.total <= i64::MAX
    }

    /// The balance after a deposit of `amount`.
    pub open spec fn deposit(self, amount: int) -> Funds {
        Funds { available: self.available + amount, total: self.total + amount, ..self }
    }

    /// A withdrawal is covered when it asks for no more than is available.
    pub open spec fn covers(self, amount: int) -> bool {
        amount <= self.available
    }

    /// The balance after a withdrawal of `amount`.
    pub open spec fn withdraw(self, amount: int) -> Funds {
        Funds { available: self.available - amount, total: self.total - amount, ..self }
    }

    /// The balance after `amount` is held back for a dispute. The total
    /// stays, and the available funds may go below zero.
    pub open spec fn hold(self, amount: int) -> Funds {
        Funds { available: self.available - amount, held: self.held + amount, ..self }
    }

    /// The balance after `amount` is released from a dispute. The total
    /// stays.
    pub open spec fn release(self, amount: int) -> Funds {
        Funds { available: self.available + amount, held: self.held - amount, ..self }
    }

    /// The balance after `amount` is charged back: it leaves the held funds
    /// and the total, the available funds stay, and the account is locked.
    pub open spec fn chargeback(self, amount: int) -> Funds {
        Funds { held: self.held - amount, total: self.total - amount, locked: true, ..self }
    }
}

/// The balance of one client, in base units.
#[derive(Debug, Clone, Copy)]
pub struct Balance {
    available_base_units: i64,
    held_base_units: i64,
    total_base_units: i64,
    locked: bool,
}

impl View for Balance {
    type V = Funds;

    closed spec fn view(&self) -> Funds {
        Funds {
            available: self.available_base_units as int,
            held: self.held_base_units as int,
            total: self.total_base_units as int,
            locked: self.locked,
        }
    }
}

impl Balance {
    /// The balance of a client that has not been seen yet: nothing
    /// available, nothing held, not locked.
    pub fn new() -> (balance: Self)
        ensures
            balance@ == Funds::zero(),
    {
        Self { available_base_units: 0, held_base_units: 0, total_base_units: 0, locked: false }
    }

    /// The funds that the client may withdraw, in base units.
    pub fn available(&self) -> (amount: i64)
        ensures
            amount == self@.available,
    {
        self.available_base_units
    }

    /// The funds that open disputes hold back, in base units.
    pub fn held(&self) -> (amount: i64)
        ensures
            amount == self@.held,
    {
        self.held_base_units
    }

    /// The available and the held funds together, in base units.
    pub fn total(&self) -> (amount: i64)
        ensures
            amount == self@.total,
    {
        self.total_base_units
    }

    /// Whether a chargeback has locked the account.
    pub fn locked(&self) -> (locked: bool)
        ensures
            locked == self@.locked,
    {
        self.locked
    }

    /// What a balance holds always fits its fields.
    pub proof fn lemma_representable(self)
        ensures
            self@.representable(),
    {
    }

    /// Tells whether `deposit` can take `amount`.
    pub fn deposit_fits(&self, amount: i64) -> (fits: bool)
        ensures
            fits == self@.deposit(amount as int).representable(),
    {
        self.available_base_units.checked_add(amount).is_some()
            && self.total_base_units.checked_add(amount).is_some()
    }

    /// Tells whether `withdrawal` can take `amount`: it can wherever the
    /// available funds do not cover the amount, since nothing moves then.
    pub fn withdrawal_fits(&self, amount: i64) -> (fits: bool)
        ensures
            fits == (self@.covers(amount as int) ==> self@.withdraw(
                amount as int,
            ).representable()),
    {
        self.available_base_units < amount || (self.available_base_units.checked_sub(
            amount,
        ).is_some() && self.total_base_units.checked_sub(amount).is_some())
    }

    /// Tells whether `hold` can take `amount`.
    pub fn hold_fits(&self, amount: i64) -> (fits: bool)
        ensures
            fits == self@.hold(amount as int).representable(),
    {
        self.available_base_units.checked_sub(amount).is_some()
            && self.held_base_units.checked_add(amount).is_some()
    }

    /// Tells whether `release` can take `amount`.
    pub fn release_fits(&self, amount: i64) -> (fits: bool)
        ensures
            fits == self@.release(amount as int).representable(),
    {
        self.available_base_units.checked_add(amount).is_some()
            && self.held_base_units.checked_sub(amount).is_some()
    }

    /// Tells whether `chargeback` can take `amount`.
    pub fn chargeback_fits(&self, amount: i64) -> (fits: bool)
        ensures
            fits == self@.chargeback(amount as int).representable(),
    {
        self.total_base_units.checked_sub(amount).is_some()
            && self.held_base_units.checked_sub(amount).is_some()
    }

    /// Adds `amount` to the available funds and to the total.
    pub fn deposit(&mut self, amount: i64)
        requires
            old(self)@.deposit(amount as int).representable(),
        ensures
            final(self)@ == old(self)@.deposit(amount as int),
    {
        self.available_base_units += amount;
        self.total_base_units += amount;
    }

    /// Takes `amount` from the available funds and from the total, unless
    /// the available funds do not cover it.
    pub fn withdrawal(&mut self, amount: i64) -> (outcome: Result<(), TransactionError>)
        requires
            old(self)@.covers(amount as int) ==> old(self)@.withdraw(amount as int).representable(),
        ensures
            old(self)@.covers(amount as int) ==> outcome == Ok::<(), TransactionError>(())
                && final(self)@ == old(self)@.withdraw(amount as int),
            !old(self)@.covers(amount as int) ==> outcome == Err::<(), _>(
                TransactionError::InsufficientFunds,
            ) && *final(self) == *old(self),
    {
        if self.available_base_units < amount {
            return Err(TransactionError::InsufficientFunds);
        }
        self.available_base_units -= amount;
        self.total_base_units -= amount;
        Ok(())
    }

    /// Moves `amount` from the available funds to the held funds.
    pub fn hold(&mut self, amount: i64)
        requires
            old(self)@.hold(amount as int).representable(),
        ensures
            final(self)@ == old(self)@.hold(amount as int),
    {
        self.available_base_units -= amount;
        self.held_base_units += amount;
    }

    /// Moves `amount` from the held funds back to the available funds.
    pub fn release(&mut self, amount: i64)
        requires
            old(self)@.release(amount as int).representable(),
        ensures
            final(self)@ == old(self)@.release(amount as int),
    {
        self.available_base_units += amount;
        self.held_base_units -= amount;
    }

    /// Removes `amount` from the held funds and from the total, and locks
    /// the account. The available funds stay as they are.
    pub fn chargeback(&mut self, amount: i64)
        requires
            old(self)@.chargeback(amount as int).representable(),
        ensures
            final(self)@ == old(self)@.chargeback(amount as int),
    {
        self.total_base_units -= amount;
        self.held_base_units -= amount;
        self.locked = true;
    }
}

/// Two balances are equal when all four fields are.
impl PartialEq for Balance {
    fn eq(&self, other: &Self) -> (equal: bool) {
        self.available_base_units == other.available_base_units && self.held_base_units
            == other.held_base_units && self.total_base_units == other.total_base_units
            && self.locked == other.locked
    }
}

impl vstd::std_specs::cmp::PartialEqSpecImpl for Balance {
    open spec fn obeys_eq_spec() -> bool {
        true
    }

    open spec fn eq_spec(&self, other: &Self) -> bool {
        self@ == other@
    }
}

} // verus!
