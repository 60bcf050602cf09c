//! The ledger: every account, and every transaction that was applied under
//! an id of its own.

use super::client::{Client, ClientView, PRECISION};
use super::transactions::{DisputeStatus, Transaction, TransactionView};
use super::{ExecutableTransaction, TransactionError};
use crate::amount::AmountView;
use std::collections::HashMap;
use vstd::prelude::*;

verus! {

/// A ledger as two plain maps.
#[verifier::ext_equal]
pub struct LedgerView {
    pub clients: Map<u16, ClientView>,
    pub transactions: Map<u32, TransactionView>,
}

impl LedgerView {
    /// Every account is filed under its own id, and so is every stored
    /// transaction; only transactions with an id of their own are stored.
    pub open spec fn wf(self) -> bool {
        &&& forall|id: u16| #[trigger]
            self.clients.contains_key(id) ==> self.clients[id].wf() && self.clients[id].id == id
        &&& forall|id: u32| #[trigger]
            self.transactions.contains_key(id) ==> self.transactions[id].wf()
                && self.transactions[id].id() == Some(id)
    }

    /// The ledger without accounts or transactions.
    pub open spec fn empty() -> LedgerView {
        LedgerView { clients: Map::empty(), transactions: Map::empty() }
    }

    /// The account of `id`, or a fresh one where the ledger has none.
    pub open spec fn client_or_new(self, id: u16) -> ClientView {
        if self.clients.contains_key(id) {
            self.clients[id]
        } else {
            ClientView::new(id)
        }
    }

    /// The transaction carries an id that the ledger has already seen.
    pub open spec fn has_seen(self, transaction: TransactionView) -> bool {
        transaction.id() matches Some(id) && self.transactions.contains_key(id)
    }

    /// What the ledger answers to `transaction`, and the ledger afterwards.
    /// A transaction whose id was seen before is passed over. Any other is
    /// executed, and where that succeeds and it has an id, it is stored.
    pub open spec fn execute_transaction(self, transaction: TransactionView) -> (
        Result<(), TransactionError>,
        LedgerView,
    ) {
        if self.has_seen(transaction) {
            (Ok(()), self)
        } else {
            let (result, next) = transaction.execute(self);
            match (result, transaction.id()) {
                (Ok(_), Some(id)) => (
                    result,
                    LedgerView { transactions: next.transactions.insert(id, transaction), ..next },
                ),
                _ => (result, next),
            }
        }
    }

    /// The sums and differences that `transaction` would compute need no
    /// rounding.
    pub open spec fn accepts(self, transaction: TransactionView) -> bool {
        self.has_seen(transaction) || transaction.executes_exactly(self)
    }
}

impl LedgerView {
    /// Whatever the ledger is handed, it stays well formed.
    pub proof fn lemma_execute_transaction_keeps_wf(self, transaction: TransactionView)
        requires
            self.wf(),
            transaction.wf(),
            self.accepts(transaction),
        ensures
            self.execute_transaction(transaction).1.wf(),
    {
        if !self.has_seen(transaction) {
            transaction.lemma_execute_keeps_wf(self);
        }
    }

    /// A transaction whose id the ledger has seen is passed over: no error,
    /// and nothing changes, whatever the transaction holds.
    pub proof fn lemma_seen_id_is_passed_over(self, transaction: TransactionView)
        requires
            self.has_seen(transaction),
        ensures
            self.execute_transaction(transaction) == (Ok::<(), TransactionError>(()), self),
    {
    }

    /// Once a transaction with an id has been applied, any transaction under
    /// the same id is passed over.
    pub proof fn lemma_applied_once(self, first: TransactionView, second: TransactionView)
        requires
            first.id() is Some,
            first.id() == second.id(),
            self.execute_transaction(first).0 is Ok,
        ensures
            self.execute_transaction(first).1.execute_transaction(second) == (
                Ok::<(), TransactionError>(()),
                self.execute_transaction(first).1,
            ),
    {
        let next = self.execute_transaction(first).1;
        let id = first.id()->Some_0;
        if !self.has_seen(first) {
            first.lemma_execute_keeps_stored(self);
        }
        assert(next.transactions.contains_key(id));
    }

    /// A refused transaction leaves the ledger as it was, and only a
    /// transaction that was applied under an id of its own is stored.
    pub proof fn lemma_refusal_changes_nothing(self, transaction: TransactionView)
        ensures
            self.execute_transaction(transaction).0 is Err ==> self.execute_transaction(
                transaction,
            ).1 == self,
            forall|id: u32| #[trigger]
                self.execute_transaction(transaction).1.transactions.contains_key(id)
                    ==> self.transactions.contains_key(id) || (transaction.id() == Some(id)
                    && self.execute_transaction(transaction).0 is Ok),
    {
        transaction.lemma_refusal_changes_nothing(self);
        transaction.lemma_execute_keeps_stored(self);
    }

    /// A withdrawal is refused, and changes nothing, where the client has no
    /// account (none is made), where the account is locked, and where less
    /// is available than asked for.
    pub proof fn lemma_withdrawal_denied(self, id: u32, client_id: u16, amount: AmountView)
        requires
            !self.transactions.contains_key(id),
        ensures
            ({
                let withdrawal = TransactionView::Withdrawal { id, client_id, amount };
                let (result, next) = self.execute_transaction(withdrawal);
                &&& !self.clients.contains_key(client_id) ==> result == Err::<(), TransactionError>(
                    TransactionError::ClientNotFound,
                ) && next == self
                &&& self.clients.contains_key(client_id) && self.clients[client_id].locked
                    ==> result == Err::<(), TransactionError>(TransactionError::AccountLocked)
                    && next == self
                &&& self.clients.contains_key(client_id) && !self.clients[client_id].locked
                    && self.clients[client_id].available.units() < amount.units() ==> result
                    == Err::<(), TransactionError>(TransactionError::InsufficientFunds) && next
                    == self
            }),
    {
    }

    /// A dispute, a resolution or a chargeback that names a stored
    /// transaction other than a deposit is refused with
    /// `DisputeNotSupported`, and changes nothing.
    pub proof fn lemma_only_deposits_are_disputed(self, request: TransactionView)
        requires
            request.id() is None,
            self.clients.contains_key(request.client_id()),
            self.transactions.contains_key(request.ref_tx_id()),
            !(self.transactions[request.ref_tx_id()] is Deposit),
        ensures
            self.execute_transaction(request) == (
                Err::<(), TransactionError>(TransactionError::DisputeNotSupported),
                self,
            ),
    {
    }

    /// The life of a dispute that ends in a chargeback. Disputing a deposit
    /// that no one has disputed moves its amount from available to held; the
    /// chargeback then takes the amount out of held and locks the account;
    /// after that the deposit refuses every dispute, resolution and
    /// chargeback. The amounts are exact where the deposit has no more than
    /// four fractional digits.
    pub proof fn lemma_dispute_then_chargeback(self, ref_tx_id: u32, client_id: u16, further: TransactionView)
        requires
            self.wf(),
            self.clients.contains_key(client_id),
            self.transactions.contains_key(ref_tx_id),
            self.transactions[ref_tx_id] matches TransactionView::Deposit { dispute_status, amount, .. }
                && dispute_status == DisputeStatus::NoDispute && amount.scale <= PRECISION,
            self.accepts(TransactionView::Dispute { ref_tx_id, client_id }),
            self.execute_transaction(TransactionView::Dispute { ref_tx_id, client_id }).1.accepts(
                TransactionView::Chargeback { ref_tx_id, client_id },
            ),
            further.id() is None,
            further.ref_tx_id() == ref_tx_id,
            further.client_id() == client_id,
        ensures
            ({
                let amount = self.transactions[ref_tx_id]->Deposit_amount;
                let before = self.clients[client_id];
                let (disputed, held) = self.execute_transaction(
                    TransactionView::Dispute { ref_tx_id, client_id },
                );
                let (charged, locked) = held.execute_transaction(
                    TransactionView::Chargeback { ref_tx_id, client_id },
                );
                &&& disputed is Ok
                &&& held.clients[client_id].available.units() == before.available.units()
                    - amount.units()
                &&& held.clients[client_id].held.units() == before.held.units() + amount.units()
                &&& held.clients[client_id].locked == before.locked
                &&& charged is Ok
                &&& locked.clients[client_id].available == held.clients[client_id].available
                &&& locked.clients[client_id].held.units() == before.held.units()
                &&& locked.clients[client_id].locked
                &&& locked.execute_transaction(further) == (
                    Err::<(), TransactionError>(TransactionError::TransactionAlreadyDisputed),
                    locked,
                )
            }),
    {
        let deposit = self.transactions[ref_tx_id];
        let amount = deposit->Deposit_amount;
        let before = self.clients[client_id];
        let held = self.execute_transaction(TransactionView::Dispute { ref_tx_id, client_id }).1;
        before.lemma_short_amounts_move_exactly(amount);
        before.lemma_operations_keep_wf(amount);
        let during = held.clients[client_id];
        assert(during == before.hold_funds(amount));
        during.lemma_short_amounts_move_exactly(amount);
    }

    /// The life of a dispute that ends in a resolution: where the deposit
    /// has no more than four fractional digits, the account is worth after
    /// the resolution what it was worth before the dispute, available and
    /// held.
    pub proof fn lemma_dispute_then_resolve(self, ref_tx_id: u32, client_id: u16)
        requires
            self.wf(),
            self.clients.contains_key(client_id),
            self.transactions.contains_key(ref_tx_id),
            self.transactions[ref_tx_id] matches TransactionView::Deposit { dispute_status, amount, .. }
                && dispute_status == DisputeStatus::NoDispute && amount.scale <= PRECISION,
            self.accepts(TransactionView::Dispute { ref_tx_id, client_id }),
            self.execute_transaction(TransactionView::Dispute { ref_tx_id, client_id }).1.accepts(
                TransactionView::Resolve { ref_tx_id, client_id },
            ),
        ensures
            ({
                let before = self.clients[client_id];
                let (disputed, held) = self.execute_transaction(
                    TransactionView::Dispute { ref_tx_id, client_id },
                );
                let (resolved, after) = held.execute_transaction(
                    TransactionView::Resolve { ref_tx_id, client_id },
                );
                &&& disputed is Ok
                &&& resolved is Ok
                &&& after.clients[client_id].available.units() == before.available.units()
                &&& after.clients[client_id].held.units() == before.held.units()
                &&& after.clients[client_id].locked == before.locked
            }),
    {
        let amount = self.transactions[ref_tx_id]->Deposit_amount;
        let before = self.clients[client_id];
        let held = self.execute_transaction(TransactionView::Dispute { ref_tx_id, client_id }).1;
        before.lemma_short_amounts_move_exactly(amount);
        before.lemma_operations_keep_wf(amount);
        let during = held.clients[client_id];
        assert(during == before.hold_funds(amount));
        during.lemma_short_amounts_move_exactly(amount);
    }
}

/// The accounts of all clients, and the transactions that may yet be
/// disputed.
pub struct Ledger {
    clients: HashMap<u16, Client>,
    transactions: HashMap<u32, Transaction>,
}

impl View for Ledger {
    type V = LedgerView;

    closed spec fn view(&self) -> LedgerView {
        LedgerView {
            clients: self.clients@.map_values(|c: Client| c@),
            transactions: self.transactions@.map_values(|t: Transaction| t@),
        }
    }
}

impl Default for Ledger {
    fn default() -> (r: Ledger)
        ensures
            r@ == LedgerView::empty(),
    {
        Ledger::new()
    }
}

impl Ledger {
    /// A ledger without accounts or transactions.
    pub fn new() -> (r: Ledger)
        ensures
            r@ == LedgerView::empty(),
    {
        let r = Ledger { clients: HashMap::new(), transactions: HashMap::new() };
        assert(r@ =~= LedgerView::empty());
        r
    }

    /// The account of `id`, if there is one.
    pub fn client(&self, id: u16) -> (r: Option<&Client>)
        ensures
            match r {
                Some(client) => self@.clients.contains_key(id) && client@ == self@.clients[id],
                None => !self@.clients.contains_key(id),
            },
    {
        broadcast use vstd::std_specs::hash::group_hash_axioms;

        self.clients.get(&id)
    }

    /// The stored transaction `id`, if there is one.
    pub fn transaction(&self, id: u32) -> (r: Option<&Transaction>)
        ensures
            match r {
                Some(transaction) => self@.transactions.contains_key(id) && transaction@
                    == self@.transactions[id],
                None => !self@.transactions.contains_key(id),
            },
    {
        broadcast use vstd::std_specs::hash::group_hash_axioms;

        self.transactions.get(&id)
    }

    /// All accounts, by client id.
    pub fn clients(&self) -> (r: &HashMap<u16, Client>)
        ensures
            r@.dom() == self@.clients.dom(),
            forall|id: u16| #[trigger] r@.contains_key(id) ==> r@[id]@ == self@.clients[id],
    {
        assert(self.clients@.dom() =~= self@.clients.dom());
        &self.clients
    }

    /// An iterator over all accounts, each with its client id, in no
    /// particular order.
    pub fn clients_iter(&self) -> (r: std::collections::hash_map::Iter<'_, u16, Client>)
        ensures
            ({
                let accounts = vstd::std_specs::hash::into_iter(r);
                &&& accounts.len() == self@.clients.len()
                &&& accounts.no_duplicates()
                &&& forall|i: int|
                    0 <= i < accounts.len() ==> self@.clients.contains_key(
                        (#[trigger] accounts[i]).0,
                    ) && self@.clients[accounts[i].0] == accounts[i].1@
            }),
    {
        broadcast use vstd::std_specs::hash::group_hash_axioms;

        let r = self.clients.iter();
        proof {
            let accounts = vstd::std_specs::hash::into_iter(r);
            assert(self.clients@.dom() =~= self@.clients.dom());
        }
        r
    }

    /// Whether `transaction` can be handed to
    /// [`execute_transaction`](Self::execute_transaction): the sums and
    /// differences that it would compute need no rounding.
    pub fn accepts(&self, transaction: &Transaction) -> (r: bool)
        ensures
            r == self@.accepts(transaction@),
    {
        if let Some(id) = transaction.id() {
            if self.transaction(id).is_some() {
                return true;
            }
        }
        transaction.executes_exactly(self)
    }

    /// Applies `transaction`, and stores it where it has an id of its own.
    /// One whose id was seen before is passed over in silence; one that is
    /// refused leaves the ledger as it was.
    pub fn execute_transaction(&mut self, transaction: Transaction) -> (r: Result<
        (),
        TransactionError,
    >)
        requires
            old(self)@.accepts(transaction@),
        ensures
            r == old(self)@.execute_transaction(transaction@).0,
            final(self)@ == old(self)@.execute_transaction(transaction@).1,
            old(self)@.has_seen(transaction@) ==> r is Ok && final(self)@ == old(self)@,
            r is Err ==> final(self)@ == old(self)@,
            old(self)@.wf() ==> final(self)@.wf(),
    {
        proof {
            match &transaction {
                Transaction::Deposit(t) => {
                    use_type_invariant(t);
                },
                Transaction::Withdrawal(t) => {
                    use_type_invariant(t);
                },
                _ => {
                    transaction.lemma_reference_is_wf();
                },
            }
            if old(self)@.wf() {
                old(self)@.lemma_execute_transaction_keeps_wf(transaction@);
            }
        }
        if let Some(id) = transaction.id() {
            if self.transaction(id).is_some() {
                return Ok(());
            }
        }
        match transaction.execute(self) {
            Ok(()) => {},
            Err(e) => {
                proof {
                    transaction@.lemma_refusal_changes_nothing(old(self)@);
                }
                return Err(e);
            },
        }
        if let Some(id) = transaction.id() {
            self.put_transaction(id, transaction);
        }
        Ok(())
    }

    /// Takes the account of `id` out of the ledger.
    pub(crate) fn take_client(&mut self, id: u16) -> (r: Option<Client>)
        ensures
            final(self)@ == (LedgerView { clients: old(self)@.clients.remove(id), ..old(self)@ }),
            match r {
                Some(client) => old(self)@.clients.contains_key(id) && client@ == old(
                    self,
                )@.clients[id],
                None => !old(self)@.clients.contains_key(id),
            },
    {
        broadcast use vstd::std_specs::hash::group_hash_axioms;

        let r = self.clients.remove(&id);
        assert(self@ =~= (LedgerView { clients: old(self)@.clients.remove(id), ..old(self)@ }));
        r
    }

    /// Files `client` under `id`, in place of any account that was there.
    pub(crate) fn put_client(&mut self, id: u16, client: Client)
        ensures
            final(self)@ == (LedgerView {
                clients: old(self)@.clients.insert(id, client@),
                ..old(self)@
            }),
    {
        broadcast use vstd::std_specs::hash::group_hash_axioms;

        let ghost view = client@;
        self.clients.insert(id, client);
        assert(self@ =~= (LedgerView { clients: old(self)@.clients.insert(id, view), ..old(self)@ }));
    }

    /// Takes the stored transaction `id` out of the ledger.
    pub(crate) fn take_transaction(&mut self, id: u32) -> (r: Option<Transaction>)
        ensures
            final(self)@ == (LedgerView {
                transactions: old(self)@.transactions.remove(id),
                ..old(self)@
            }),
            match r {
                Some(transaction) => old(self)@.transactions.contains_key(id) && transaction@
                    == old(self)@.transactions[id],
                None => !old(self)@.transactions.contains_key(id),
            },
    {
        broadcast use vstd::std_specs::hash::group_hash_axioms;

        let r = self.transactions.remove(&id);
        assert(self@ =~= (LedgerView {
            transactions: old(self)@.transactions.remove(id),
            ..old(self)@
        }));
        r
    }

    /// Stores `transaction` under `id`, in place of any that was there.
    pub(crate) fn put_transaction(&mut self, id: u32, transaction: Transaction)
        ensures
            final(self)@ == (LedgerView {
                transactions: old(self)@.transactions.insert(id, transaction@),
                ..old(self)@
            }),
    {
        broadcast use vstd::std_specs::hash::group_hash_axioms;

        let ghost view = transaction@;
        self.transactions.insert(id, transaction);
        assert(self@ =~= (LedgerView {
            transactions: old(self)@.transactions.insert(id, view),
            ..old(self)@
        }));
    }
}

} // verus!
