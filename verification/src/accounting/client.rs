//! A client's account: what is available, what is held, and the lock.

use super::TransactionError;
use crate::amount::{lemma_minus_exact, lemma_plus_exact, lemma_round, Amount, AmountView};
use vstd::prelude::*;

verus! {

/// The number of fractional digits that a balance keeps.
pub const PRECISION: u32 = 4;

/// An account as a plain record.
pub struct ClientView {
    pub id: u16,
    pub available: AmountView,
    pub held: AmountView,
    pub locked: bool,
}

impl ClientView {
    /// Both balances are decimals with at most four fractional digits.
    pub open spec fn wf(self) -> bool {
        &&& self.available.wf()
        &&& self.held.wf()
        &&& self.available.scale <= PRECISION
        &&& self.held.scale <= PRECISION
    }

    /// A fresh account: nothing available, nothing held, not locked.
    pub open spec fn new(id: u16) -> ClientView {
        ClientView { id, available: AmountView::zero(), held: AmountView::zero(), locked: false }
    }

    /// What the account is worth: available and held together.
    pub open spec fn total(self) -> AmountView {
        self.available.plus(self.held)
    }

    /// Available and held add up without rounding.
    pub open spec fn totals_exactly(self) -> bool {
        self.available.adds_exactly(self.held)
    }

    /// `amount` can be added to what is available without rounding.
    pub open spec fn deposits_exactly(self, amount: AmountView) -> bool {
        self.available.adds_exactly(amount)
    }

    /// The account after a deposit of `amount`: it is added to what is
    /// available, and the sum is rounded to four digits.
    pub open spec fn deposit(self, amount: AmountView) -> ClientView {
        ClientView { available: self.available.plus(amount).round(PRECISION as nat), ..self }
    }

    /// Whether a withdrawal of `amount` goes through.
    pub open spec fn withdrawal_check(self, amount: AmountView) -> Result<(), TransactionError> {
        if self.locked {
            Err(TransactionError::AccountLocked)
        } else if self.available.units() < amount.units() {
            Err(TransactionError::InsufficientFunds)
        } else {
            Ok(())
        }
    }

    /// Where a withdrawal of `amount` goes through, it can be taken from
    /// what is available without rounding.
    pub open spec fn withdraws_exactly(self, amount: AmountView) -> bool {
        self.withdrawal_check(amount) is Ok ==> self.available.subtracts_exactly(amount)
    }

    /// The account after an attempt to withdraw `amount`: a refused
    /// withdrawal leaves it as it was.
    pub open spec fn withdraw(self, amount: AmountView) -> ClientView {
        if self.withdrawal_check(amount) is Ok {
            ClientView { available: self.available.minus(amount).round(PRECISION as nat), ..self }
        } else {
            self
        }
    }

    /// `amount` can be moved from available to held without rounding.
    pub open spec fn holds_exactly(self, amount: AmountView) -> bool {
        self.available.subtracts_exactly(amount) && self.held.adds_exactly(amount)
    }

    /// The account after `amount` has moved from available to held, each
    /// balance rounded to four digits. Nothing keeps what is available from
    /// going below zero.
    pub open spec fn hold_funds(self, amount: AmountView) -> ClientView {
        ClientView {
            available: self.available.minus(amount).round(PRECISION as nat),
            held: self.held.plus(amount).round(PRECISION as nat),
            ..self
        }
    }

    /// `amount` can be moved from held to available without rounding.
    pub open spec fn releases_exactly(self, amount: AmountView) -> bool {
        self.held.subtracts_exactly(amount) && self.available.adds_exactly(amount)
    }

    /// The account after `amount` has moved back from held to available,
    /// each balance rounded to four digits.
    pub open spec fn release_funds(self, amount: AmountView) -> ClientView {
        ClientView {
            available: self.available.plus(amount).round(PRECISION as nat),
            held: self.held.minus(amount).round(PRECISION as nat),
            ..self
        }
    }

    /// `amount` can be taken from what is held without rounding.
    pub open spec fn charges_back_exactly(self, amount: AmountView) -> bool {
        self.held.subtracts_exactly(amount)
    }

    /// The account after a chargeback of `amount`: it leaves what is held,
    /// rounded to four digits, and the account is locked.
    pub open spec fn chargeback(self, amount: AmountView) -> ClientView {
        ClientView { held: self.held.minus(amount).round(PRECISION as nat), locked: true, ..self }
    }
    /// Every operation on an account keeps its id and leaves it well
    /// formed, as long as its sums and differences are exact.
    pub proof fn lemma_operations_keep_wf(self, amount: AmountView)
        requires
            self.wf(),
            amount.wf(),
        ensures
            ClientView::new(self.id).wf(),
            self.deposits_exactly(amount) ==> self.deposit(amount).wf(),
            self.withdraws_exactly(amount) ==> self.withdraw(amount).wf(),
            self.holds_exactly(amount) ==> self.hold_funds(amount).wf(),
            self.releases_exactly(amount) ==> self.release_funds(amount).wf(),
            self.charges_back_exactly(amount) ==> self.chargeback(amount).wf(),
    {
        let dp = PRECISION as nat;
        if self.available.adds_exactly(amount) {
            lemma_plus_exact(self.available, amount);
            lemma_round(self.available.plus(amount), dp);
        }
        if self.available.subtracts_exactly(amount) {
            lemma_minus_exact(self.available, amount);
            lemma_round(self.available.minus(amount), dp);
        }
        if self.held.adds_exactly(amount) {
            lemma_plus_exact(self.held, amount);
            lemma_round(self.held.plus(amount), dp);
        }
        if self.held.subtracts_exactly(amount) {
            lemma_minus_exact(self.held, amount);
            lemma_round(self.held.minus(amount), dp);
        }
    }

    /// What an account is worth is exactly what is available and what is
    /// held, added up.
    pub proof fn lemma_total(self)
        requires
            self.wf(),
            self.totals_exactly(),
        ensures
            self.total().units() == self.available.units() + self.held.units(),
    {
        lemma_plus_exact(self.available, self.held);
    }

    /// An amount with no more than four fractional digits moves between the
    /// balances without any rounding: what is available and what is held
    /// change by exactly that amount.
    pub proof fn lemma_short_amounts_move_exactly(self, amount: AmountView)
        requires
            self.wf(),
            amount.wf(),
            amount.scale <= PRECISION,
        ensures
            self.deposits_exactly(amount) ==> self.deposit(amount).available.units()
                == self.available.units() + amount.units(),
            self.withdraws_exactly(amount) && self.withdrawal_check(amount) is Ok ==> self.withdraw(
                amount,
            ).available.units() == self.available.units() - amount.units(),
            self.holds_exactly(amount) ==> {
                &&& self.hold_funds(amount).available.units() == self.available.units()
                    - amount.units()
                &&& self.hold_funds(amount).held.units() == self.held.units() + amount.units()
            },
            self.releases_exactly(amount) ==> {
                &&& self.release_funds(amount).available.units() == self.available.units()
                    + amount.units()
                &&& self.release_funds(amount).held.units() == self.held.units() - amount.units()
            },
            self.charges_back_exactly(amount) ==> self.chargeback(amount).held.units()
                == self.held.units() - amount.units(),
    {
        if self.available.adds_exactly(amount) {
            lemma_plus_exact(self.available, amount);
        }
        if self.available.subtracts_exactly(amount) {
            lemma_minus_exact(self.available, amount);
        }
        if self.held.adds_exactly(amount) {
            lemma_plus_exact(self.held, amount);
        }
        if self.held.subtracts_exactly(amount) {
            lemma_minus_exact(self.held, amount);
        }
    }
}

/// One client's balances and lock.
#[derive(Debug)]
pub struct Client {
    id: u16,
    available: Amount,
    held: Amount,
    locked: bool,
}

impl View for Client {
    type V = ClientView;

    closed spec fn view(&self) -> ClientView {
        ClientView { id: self.id, available: self.available@, held: self.held@, locked: self.locked }
    }
}

impl Client {
    /// Every account is well formed.
    #[verifier::type_invariant]
    pub open spec fn inv(self) -> bool {
        self@.wf()
    }

    /// A fresh account for client `id`.
    pub fn new(id: u16) -> (r: Client)
        ensures
            r@ == ClientView::new(id),
    {
        Client { id, available: Amount::zero(), held: Amount::zero(), locked: false }
    }

    /// The client that the account belongs to.
    pub fn id(&self) -> (r: u16)
        ensures
            r == self@.id,
    {
        self.id
    }

    /// What the client can withdraw.
    pub fn available(&self) -> (r: Amount)
        ensures
            r@ == self@.available,
    {
        self.available
    }

    /// What is set aside while deposits are under dispute.
    pub fn held(&self) -> (r: Amount)
        ensures
            r@ == self@.held,
    {
        self.held
    }

    /// Whether a chargeback has locked the account.
    pub fn locked(&self) -> (r: bool)
        ensures
            r == self@.locked,
    {
        self.locked
    }

    /// Adds `amount` to what is available.
    pub fn deposit(&mut self, amount: Amount)
        requires
            old(self)@.deposits_exactly(amount@),
        ensures
            final(self)@ == old(self)@.deposit(amount@),
    {
        let sum = self.available.plus(amount);
        let rounded = sum.round_dp(PRECISION);
        proof {
            use_type_invariant(&*self);
            use_type_invariant(&rounded);
        }
        self.available = rounded;
    }

    /// Takes `amount` from what is available, unless the account is locked
    /// or holds less than that.
    pub fn withdraw(&mut self, amount: Amount) -> (r: Result<(), TransactionError>)
        requires
            old(self)@.withdraws_exactly(amount@),
        ensures
            r == old(self)@.withdrawal_check(amount@),
            final(self)@ == old(self)@.withdraw(amount@),
    {
        if self.locked {
            return Err(TransactionError::AccountLocked);
        }
        if self.available.lt(&amount) {
            return Err(TransactionError::InsufficientFunds);
        }
        let rounded = self.available.minus(amount).round_dp(PRECISION);
        proof {
            use_type_invariant(&*self);
            use_type_invariant(&rounded);
        }
        self.available = rounded;
        Ok(())
    }

    /// Moves `amount` from available to held, whatever is available.
    pub fn hold_funds(&mut self, amount: Amount)
        requires
            old(self)@.holds_exactly(amount@),
        ensures
            final(self)@ == old(self)@.hold_funds(amount@),
    {
        let available = self.available.minus(amount).round_dp(PRECISION);
        let held = self.held.plus(amount).round_dp(PRECISION);
        proof {
            use_type_invariant(&*self);
            use_type_invariant(&available);
            use_type_invariant(&held);
        }
        self.available = available;
        self.held = held;
    }

    /// Moves `amount` back from held to available.
    pub fn release_funds(&mut self, amount: Amount)
        requires
            old(self)@.releases_exactly(amount@),
        ensures
            final(self)@ == old(self)@.release_funds(amount@),
    {
        let held = self.held.minus(amount).round_dp(PRECISION);
        let available = self.available.plus(amount).round_dp(PRECISION);
        proof {
            use_type_invariant(&*self);
            use_type_invariant(&available);
            use_type_invariant(&held);
        }
        self.held = held;
        self.available = available;
    }

    /// Removes `amount` from what is held and locks the account.
    pub fn chargeback(&mut self, amount: Amount)
        requires
            old(self)@.charges_back_exactly(amount@),
        ensures
            final(self)@ == old(self)@.chargeback(amount@),
    {
        let held = self.held.minus(amount).round_dp(PRECISION);
        proof {
            use_type_invariant(&*self);
            use_type_invariant(&held);
        }
        self.held = held;
        self.locked = true;
    }

    /// Whether [`deposit`](Self::deposit) can add `amount` without rounding.
    pub fn can_deposit(&self, amount: &Amount) -> (r: bool)
        ensures
            r == self@.deposits_exactly(amount@),
    {
        self.available.can_add(amount)
    }

    /// Whether [`withdraw`](Self::withdraw) either refuses `amount` or can
    /// take it off without rounding.
    pub fn can_withdraw(&self, amount: &Amount) -> (r: bool)
        ensures
            r == self@.withdraws_exactly(amount@),
    {
        self.locked || self.available.lt(amount) || self.available.can_subtract(amount)
    }

    /// Whether [`hold_funds`](Self::hold_funds) can move `amount` without
    /// rounding.
    pub fn can_hold_funds(&self, amount: &Amount) -> (r: bool)
        ensures
            r == self@.holds_exactly(amount@),
    {
        self.available.can_subtract(amount) && self.held.can_add(amount)
    }

    /// Whether [`release_funds`](Self::release_funds) can move `amount`
    /// without rounding.
    pub fn can_release_funds(&self, amount: &Amount) -> (r: bool)
        ensures
            r == self@.releases_exactly(amount@),
    {
        self.held.can_subtract(amount) && self.available.can_add(amount)
    }

    /// Whether [`chargeback`](Self::chargeback) can take `amount` off
    /// without rounding.
    pub fn can_chargeback(&self, amount: &Amount) -> (r: bool)
        ensures
            r == self@.charges_back_exactly(amount@),
    {
        self.held.can_subtract(amount)
    }

    /// Whether [`get_total`](Self::get_total) can add the two balances
    /// without rounding.
    pub fn total_is_exact(&self) -> (r: bool)
        ensures
            r == self@.totals_exactly(),
    {
        self.available.can_add(&self.held)
    }

    /// What the account is worth: available and held together.
    pub fn get_total(&self) -> (r: Amount)
        requires
            self@.totals_exactly(),
        ensures
            r@ == self@.total(),
            r@.units() == self@.available.units() + self@.held.units(),
    {
        proof {
            use_type_invariant(self);
            lemma_plus_exact(self@.available, self@.held);
        }
        self.available.plus(self.held)
    }
}

} // verus!
