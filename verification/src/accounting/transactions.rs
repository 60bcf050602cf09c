//! The five kinds of transaction and the dispute state machine of a deposit.

use super::client::{Client, ClientView};
use super::ledger::{Ledger, LedgerView};
use super::{ExecutableTransaction, TransactionError};
use crate::amount::{lemma_sign, Amount, AmountView};
use vstd::prelude::*;

verus! {

/// Where a deposit stands with regard to disputes.
#[derive(Debug, Clone, Copy, PartialEq, Eq, Structural)]
pub enum DisputeStatus {
    NoDispute,
    InDispute,
    Resolved,
    Chargedback,
}

impl DisputeStatus {
    /// A dispute is open.
    pub open spec fn spec_under_dispute(&self) -> bool {
        *self == DisputeStatus::InDispute
    }

    /// A dispute was opened and settled, one way or the other.
    pub open spec fn spec_dispute_solved(&self) -> bool {
        *self == DisputeStatus::Resolved || *self == DisputeStatus::Chargedback
    }

    /// A dispute is open.
    #[verifier::when_used_as_spec(spec_under_dispute)]
    pub fn under_dispute(&self) -> (r: bool)
        ensures
            r == self.spec_under_dispute(),
    {
        match self {
            DisputeStatus::InDispute => true,
            _ => false,
        }
    }

    /// A dispute was opened and settled, one way or the other.
    #[verifier::when_used_as_spec(spec_dispute_solved)]
    pub fn dispute_solved(&self) -> (r: bool)
        ensures
            r == self.spec_dispute_solved(),
    {
        match self {
            DisputeStatus::Resolved | DisputeStatus::Chargedback => true,
            _ => false,
        }
    }
}

/// The three things that can be asked of a stored transaction.
#[derive(Debug, Clone, Copy, PartialEq, Eq, Structural)]
pub enum DisputeAction {
    Dispute,
    Resolve,
    Chargeback,
}

/// A transaction as a plain record.
pub enum TransactionView {
    Deposit { id: u32, client_id: u16, amount: AmountView, dispute_status: DisputeStatus },
    Withdrawal { id: u32, client_id: u16, amount: AmountView },
    Dispute { ref_tx_id: u32, client_id: u16 },
    Resolve { ref_tx_id: u32, client_id: u16 },
    Chargeback { ref_tx_id: u32, client_id: u16 },
}

impl TransactionView {
    /// A deposit or a withdrawal carries a positive amount.
    pub open spec fn wf(self) -> bool {
        match self {
            TransactionView::Deposit { amount, .. } => amount.wf() && amount.mantissa > 0,
            TransactionView::Withdrawal { amount, .. } => amount.wf() && amount.mantissa > 0,
            _ => true,
        }
    }

    /// The transaction's own id; `None` for one that only refers to another.
    pub open spec fn id(self) -> Option<u32> {
        match self {
            TransactionView::Deposit { id, .. } => Some(id),
            TransactionView::Withdrawal { id, .. } => Some(id),
            _ => None,
        }
    }

    /// The client in whose name the transaction comes.
    pub open spec fn client_id(self) -> u16 {
        match self {
            TransactionView::Deposit { client_id, .. } => client_id,
            TransactionView::Withdrawal { client_id, .. } => client_id,
            TransactionView::Dispute { client_id, .. } => client_id,
            TransactionView::Resolve { client_id, .. } => client_id,
            TransactionView::Chargeback { client_id, .. } => client_id,
        }
    }

    /// The stored transaction that a dispute, a resolution or a chargeback
    /// refers to; for a deposit or a withdrawal, its own id.
    pub open spec fn ref_tx_id(self) -> u32 {
        match self {
            TransactionView::Deposit { id, .. } => id,
            TransactionView::Withdrawal { id, .. } => id,
            TransactionView::Dispute { ref_tx_id, .. } => ref_tx_id,
            TransactionView::Resolve { ref_tx_id, .. } => ref_tx_id,
            TransactionView::Chargeback { ref_tx_id, .. } => ref_tx_id,
        }
    }

    /// The dispute state machine: what a stored transaction answers to
    /// `action`. Only a deposit can be disputed.
    pub open spec fn outcome(self, action: DisputeAction) -> Result<(), TransactionError> {
        match self {
            TransactionView::Deposit { dispute_status, .. } => match action {
                DisputeAction::Dispute => if dispute_status.under_dispute() {
                    Err(TransactionError::TransactionUnderDispute)
                } else if dispute_status.dispute_solved() {
                    Err(TransactionError::TransactionAlreadyDisputed)
                } else {
                    Ok(())
                },
                _ => if dispute_status.dispute_solved() {
                    Err(TransactionError::TransactionAlreadyDisputed)
                } else if !dispute_status.under_dispute() {
                    Err(TransactionError::TransactionNotDisputed)
                } else {
                    Ok(())
                },
            },
            _ => Err(TransactionError::DisputeNotSupported),
        }
    }

    /// The stored transaction after `action`: where the action is refused,
    /// as it was.
    pub open spec fn after(self, action: DisputeAction) -> TransactionView {
        match self {
            TransactionView::Deposit { id, client_id, amount, dispute_status } => if self.outcome(
                action,
            ) is Ok {
                TransactionView::Deposit {
                    id,
                    client_id,
                    amount,
                    dispute_status: match action {
                        DisputeAction::Dispute => DisputeStatus::InDispute,
                        DisputeAction::Resolve => DisputeStatus::Resolved,
                        DisputeAction::Chargeback => DisputeStatus::Chargedback,
                    },
                }
            } else {
                self
            },
            _ => self,
        }
    }

    /// The account after `action` on this transaction: where the action is
    /// refused, as it was.
    pub open spec fn client_after(self, action: DisputeAction, client: ClientView) -> ClientView {
        match self {
            TransactionView::Deposit { amount, .. } => if self.outcome(action) is Ok {
                match action {
                    DisputeAction::Dispute => client.hold_funds(amount),
                    DisputeAction::Resolve => client.release_funds(amount),
                    DisputeAction::Chargeback => client.chargeback(amount),
                }
            } else {
                client
            },
            _ => client,
        }
    }

    /// The sums and differences that `action` computes on `client` need no
    /// rounding.
    pub open spec fn acts_exactly(self, action: DisputeAction, client: ClientView) -> bool {
        match self {
            TransactionView::Deposit { amount, .. } => self.outcome(action) is Ok ==> match action {
                DisputeAction::Dispute => client.holds_exactly(amount),
                DisputeAction::Resolve => client.releases_exactly(amount),
                DisputeAction::Chargeback => client.charges_back_exactly(amount),
            },
            _ => true,
        }
    }

    /// What `action` on the stored transaction `ref_tx_id`, in the name of
    /// `client_id`, answers and leaves behind.
    pub open spec fn act(
        action: DisputeAction,
        ref_tx_id: u32,
        client_id: u16,
        ledger: LedgerView,
    ) -> (Result<(), TransactionError>, LedgerView) {
        if !ledger.clients.contains_key(client_id) {
            (Err(TransactionError::ClientNotFound), ledger)
        } else if !ledger.transactions.contains_key(ref_tx_id) {
            (Err(TransactionError::TransactionNotFound), ledger)
        } else {
            let transaction = ledger.transactions[ref_tx_id];
            let client = ledger.clients[client_id];
            if transaction.outcome(action) is Ok {
                (
                    Ok(()),
                    LedgerView {
                        clients: ledger.clients.insert(
                            client_id,
                            transaction.client_after(action, client),
                        ),
                        transactions: ledger.transactions.insert(
                            ref_tx_id,
                            transaction.after(action),
                        ),
                    },
                )
            } else {
                (transaction.outcome(action), ledger)
            }
        }
    }

    /// The sums and differences that [`act`](Self::act) computes need no
    /// rounding.
    pub open spec fn act_is_exact(
        action: DisputeAction,
        ref_tx_id: u32,
        client_id: u16,
        ledger: LedgerView,
    ) -> bool {
        ledger.clients.contains_key(client_id) && ledger.transactions.contains_key(ref_tx_id)
            ==> ledger.transactions[ref_tx_id].acts_exactly(action, ledger.clients[client_id])
    }

    /// What the transaction answers when it is applied to `ledger`, and the
    /// ledger that it leaves behind. A refused transaction leaves the ledger
    /// as it was.
    pub open spec fn execute(self, ledger: LedgerView) -> (Result<(), TransactionError>, LedgerView) {
        match self {
            TransactionView::Deposit { client_id, amount, .. } => (
                Ok(()),
                LedgerView {
                    clients: ledger.clients.insert(
                        client_id,
                        ledger.client_or_new(client_id).deposit(amount),
                    ),
                    ..ledger
                },
            ),
            TransactionView::Withdrawal { client_id, amount, .. } => if !ledger.clients.contains_key(
                client_id,
            ) {
                (Err(TransactionError::ClientNotFound), ledger)
            } else {
                let client = ledger.clients[client_id];
                if client.withdrawal_check(amount) is Ok {
                    (
                        Ok(()),
                        LedgerView {
                            clients: ledger.clients.insert(client_id, client.withdraw(amount)),
                            ..ledger
                        },
                    )
                } else {
                    (client.withdrawal_check(amount), ledger)
                }
            },
            TransactionView::Dispute { ref_tx_id, client_id } => Self::act(
                DisputeAction::Dispute,
                ref_tx_id,
                client_id,
                ledger,
            ),
            TransactionView::Resolve { ref_tx_id, client_id } => Self::act(
                DisputeAction::Resolve,
                ref_tx_id,
                client_id,
                ledger,
            ),
            TransactionView::Chargeback { ref_tx_id, client_id } => Self::act(
                DisputeAction::Chargeback,
                ref_tx_id,
                client_id,
                ledger,
            ),
        }
    }

    /// The sums and differences that `execute` computes on `ledger` need no
    /// rounding.
    pub open spec fn executes_exactly(self, ledger: LedgerView) -> bool {
        match self {
            TransactionView::Deposit { client_id, amount, .. } => ledger.client_or_new(
                client_id,
            ).deposits_exactly(amount),
            TransactionView::Withdrawal { client_id, amount, .. } => ledger.clients.contains_key(
                client_id,
            ) ==> ledger.clients[client_id].withdraws_exactly(amount),
            TransactionView::Dispute { ref_tx_id, client_id } => Self::act_is_exact(
                DisputeAction::Dispute,
                ref_tx_id,
                client_id,
                ledger,
            ),
            TransactionView::Resolve { ref_tx_id, client_id } => Self::act_is_exact(
                DisputeAction::Resolve,
                ref_tx_id,
                client_id,
                ledger,
            ),
            TransactionView::Chargeback { ref_tx_id, client_id } => Self::act_is_exact(
                DisputeAction::Chargeback,
                ref_tx_id,
                client_id,
                ledger,
            ),
        }
    }
}

impl TransactionView {
    /// The dispute state machine never touches what a transaction is: its
    /// kind, ids and amount stay, and so does the id of the account.
    pub proof fn lemma_action_keeps_identity(self, action: DisputeAction, client: ClientView)
        requires
            self.wf(),
            client.wf(),
            self.acts_exactly(action, client),
        ensures
            self.after(action).wf(),
            self.after(action).id() == self.id(),
            self.outcome(action) is Err ==> self.after(action) == self && self.client_after(
                action,
                client,
            ) == client,
            self.client_after(action, client).wf(),
            self.client_after(action, client).id == client.id,
    {
        if let TransactionView::Deposit { amount, .. } = self {
            client.lemma_operations_keep_wf(amount);
        }
    }

    /// Once a dispute on a deposit has been settled, by a resolution or by
    /// a chargeback, the deposit refuses every further action.
    pub proof fn lemma_settled_is_final(self, settling: DisputeAction, further: DisputeAction)
        requires
            self is Deposit,
            settling != DisputeAction::Dispute,
            self.outcome(settling) is Ok,
        ensures
            self.after(settling).outcome(further) == Err::<(), TransactionError>(
                TransactionError::TransactionAlreadyDisputed,
            ),
    {
    }

    /// Only a deposit can be disputed, resolved or charged back.
    pub proof fn lemma_only_deposits_are_disputed(self, action: DisputeAction)
        ensures
            !(self is Deposit) ==> self.outcome(action) == Err::<(), TransactionError>(
                TransactionError::DisputeNotSupported,
            ),
    {
    }

    /// Executing a transaction keeps a well-formed ledger well formed.
    pub proof fn lemma_execute_keeps_wf(self, ledger: LedgerView)
        requires
            ledger.wf(),
            self.wf(),
            self.executes_exactly(ledger),
        ensures
            self.execute(ledger).1.wf(),
    {
        match self {
            TransactionView::Deposit { client_id, amount, .. } => {
                ledger.client_or_new(client_id).lemma_operations_keep_wf(amount);
            },
            TransactionView::Withdrawal { client_id, amount, .. } => {
                if ledger.clients.contains_key(client_id) {
                    ledger.clients[client_id].lemma_operations_keep_wf(amount);
                }
            },
            _ => {
                let client_id = self.client_id();
                let ref_tx_id = self.ref_tx_id();
                if ledger.clients.contains_key(client_id) && ledger.transactions.contains_key(
                    ref_tx_id,
                ) {
                    let action = match self {
                        TransactionView::Dispute { .. } => DisputeAction::Dispute,
                        TransactionView::Resolve { .. } => DisputeAction::Resolve,
                        _ => DisputeAction::Chargeback,
                    };
                    ledger.transactions[ref_tx_id].lemma_action_keeps_identity(
                        action,
                        ledger.clients[client_id],
                    );
                }
            },
        }
    }

    /// Executing a transaction neither stores nor drops one.
    pub proof fn lemma_execute_keeps_stored(self, ledger: LedgerView)
        ensures
            self.execute(ledger).1.transactions.dom() == ledger.transactions.dom(),
    {
        let next = self.execute(ledger).1;
        assert(next.transactions.dom() =~= ledger.transactions.dom());
    }

    /// A transaction that is refused leaves the ledger as it was.
    pub proof fn lemma_refusal_changes_nothing(self, ledger: LedgerView)
        ensures
            self.execute(ledger).0 is Err ==> self.execute(ledger).1 == ledger,
    {
    }
}

/// Money that comes into an account. The one kind of transaction that can be
/// disputed.
#[derive(Debug)]
pub struct Deposit {
    id: u32,
    client_id: u16,
    amount: Amount,
    dispute_status: DisputeStatus,
}

impl View for Deposit {
    type V = TransactionView;

    closed spec fn view(&self) -> TransactionView {
        TransactionView::Deposit {
            id: self.id,
            client_id: self.client_id,
            amount: self.amount@,
            dispute_status: self.dispute_status,
        }
    }
}

impl Deposit {
    /// The amount is positive.
    #[verifier::type_invariant]
    pub open spec fn inv(self) -> bool {
        self@.wf()
    }

    /// A deposit of `amount`, which must be positive, that no one disputes.
    pub fn new(id: u32, client_id: u16, amount: Amount) -> (r: Result<Deposit, TransactionError>)
        ensures
            match r {
                Ok(deposit) => amount@.mantissa > 0 && deposit@ == (TransactionView::Deposit {
                    id,
                    client_id,
                    amount: amount@,
                    dispute_status: DisputeStatus::NoDispute,
                }),
                Err(e) => amount@.mantissa <= 0 && e == TransactionError::InvalidAmount,
            },
    {
        proof {
            use_type_invariant(&amount);
            lemma_sign(amount@);
        }
        if !Amount::zero().lt(&amount) {
            return Err(TransactionError::InvalidAmount);
        }
        Ok(Deposit { id, client_id, amount, dispute_status: DisputeStatus::NoDispute })
    }
}

impl ExecutableTransaction for Deposit {
    fn execute(&self, ledger: &mut Ledger) -> (r: Result<(), TransactionError>) {
        let mut client = match ledger.take_client(self.client_id) {
            Some(client) => client,
            None => Client::new(self.client_id),
        };
        client.deposit(self.amount);
        ledger.put_client(self.client_id, client);
        assert(final(ledger)@ =~= self@.execute(old(ledger)@).1);
        Ok(())
    }

    fn dispute(&mut self, client: &mut Client) -> (r: Result<(), TransactionError>) {
        if self.dispute_status.under_dispute() {
            return Err(TransactionError::TransactionUnderDispute);
        }
        if self.dispute_status.dispute_solved() {
            return Err(TransactionError::TransactionAlreadyDisputed);
        }
        proof {
            use_type_invariant(&*self);
        }
        client.hold_funds(self.amount);
        self.dispute_status = DisputeStatus::InDispute;
        Ok(())
    }

    fn resolve(&mut self, client: &mut Client) -> (r: Result<(), TransactionError>) {
        if self.dispute_status.dispute_solved() {
            return Err(TransactionError::TransactionAlreadyDisputed);
        }
        if !self.dispute_status.under_dispute() {
            return Err(TransactionError::TransactionNotDisputed);
        }
        proof {
            use_type_invariant(&*self);
        }
        client.release_funds(self.amount);
        self.dispute_status = DisputeStatus::Resolved;
        Ok(())
    }

    fn chargeback(&mut self, client: &mut Client) -> (r: Result<(), TransactionError>) {
        if self.dispute_status.dispute_solved() {
            return Err(TransactionError::TransactionAlreadyDisputed);
        }
        if !self.dispute_status.under_dispute() {
            return Err(TransactionError::TransactionNotDisputed);
        }
        proof {
            use_type_invariant(&*self);
        }
        client.chargeback(self.amount);
        self.dispute_status = DisputeStatus::Chargedback;
        Ok(())
    }

    fn id(&self) -> (r: Option<u32>) {
        Some(self.id)
    }
}

/// Money that leaves an account.
#[derive(Debug)]
pub struct Withdrawal {
    id: u32,
    client_id: u16,
    amount: Amount,
}

impl View for Withdrawal {
    type V = TransactionView;

    closed spec fn view(&self) -> TransactionView {
        TransactionView::Withdrawal { id: self.id, client_id: self.client_id, amount: self.amount@ }
    }
}

impl Withdrawal {
    /// The amount is positive.
    #[verifier::type_invariant]
    pub open spec fn inv(self) -> bool {
        self@.wf()
    }

    /// A withdrawal of `amount`, which must be positive.
    pub fn new(id: u32, client_id: u16, amount: Amount) -> (r: Result<
        Withdrawal,
        TransactionError,
    >)
        ensures
            match r {
                Ok(withdrawal) => amount@.mantissa > 0 && withdrawal@ == (
                TransactionView::Withdrawal { id, client_id, amount: amount@ }),
                Err(e) => amount@.mantissa <= 0 && e == TransactionError::InvalidAmount,
            },
    {
        proof {
            use_type_invariant(&amount);
            lemma_sign(amount@);
        }
        if !Amount::zero().lt(&amount) {
            return Err(TransactionError::InvalidAmount);
        }
        Ok(Withdrawal { id, client_id, amount })
    }
}

impl ExecutableTransaction for Withdrawal {
    fn execute(&self, ledger: &mut Ledger) -> (r: Result<(), TransactionError>) {
        match ledger.take_client(self.client_id) {
            Some(mut client) => {
                let r = client.withdraw(self.amount);
                ledger.put_client(self.client_id, client);
                assert(final(ledger)@ =~= self@.execute(old(ledger)@).1);
                r
            },
            None => {
                assert(final(ledger)@ =~= old(ledger)@);
                Err(TransactionError::ClientNotFound)
            },
        }
    }

    fn dispute(&mut self, _client: &mut Client) -> (r: Result<(), TransactionError>) {
        Err(TransactionError::DisputeNotSupported)
    }

    fn resolve(&mut self, _client: &mut Client) -> (r: Result<(), TransactionError>) {
        Err(TransactionError::DisputeNotSupported)
    }

    fn chargeback(&mut self, _client: &mut Client) -> (r: Result<(), TransactionError>) {
        Err(TransactionError::DisputeNotSupported)
    }

    fn id(&self) -> (r: Option<u32>) {
        Some(self.id)
    }
}

/// Runs `action` on the stored transaction `ref_tx_id`, against the account
/// of `client_id`.
fn act_on_stored(action: DisputeAction, ref_tx_id: u32, client_id: u16, ledger: &mut Ledger) -> (r:
    Result<(), TransactionError>)
    requires
        TransactionView::act_is_exact(action, ref_tx_id, client_id, old(ledger)@),
    ensures
        r == TransactionView::act(action, ref_tx_id, client_id, old(ledger)@).0,
        final(ledger)@ == TransactionView::act(action, ref_tx_id, client_id, old(ledger)@).1,
{
    match ledger.take_client(client_id) {
        Some(mut client) => {
            match ledger.take_transaction(ref_tx_id) {
                Some(mut transaction) => {
                    let r = match action {
                        DisputeAction::Dispute => transaction.dispute(&mut client),
                        DisputeAction::Resolve => transaction.resolve(&mut client),
                        DisputeAction::Chargeback => transaction.chargeback(&mut client),
                    };
                    ledger.put_transaction(ref_tx_id, transaction);
                    ledger.put_client(client_id, client);
                    assert(final(ledger)@ =~= TransactionView::act(
                        action,
                        ref_tx_id,
                        client_id,
                        old(ledger)@,
                    ).1);
                    r
                },
                None => {
                    ledger.put_client(client_id, client);
                    assert(final(ledger)@ =~= old(ledger)@);
                    Err(TransactionError::TransactionNotFound)
                },
            }
        },
        None => {
            assert(final(ledger)@ =~= old(ledger)@);
            Err(TransactionError::ClientNotFound)
        },
    }
}

/// A claim that the transaction `ref_tx_id` was made in error.
#[derive(Debug)]
pub struct Dispute {
    ref_tx_id: u32,
    client_id: u16,
}

impl View for Dispute {
    type V = TransactionView;

    closed spec fn view(&self) -> TransactionView {
        TransactionView::Dispute { ref_tx_id: self.ref_tx_id, client_id: self.client_id }
    }
}

impl Dispute {
    /// A dispute of the transaction `ref_tx_id`, in the name of `client_id`.
    pub fn new(ref_tx_id: u32, client_id: u16) -> (r: Dispute)
        ensures
            r@ == (TransactionView::Dispute { ref_tx_id, client_id }),
    {
        Dispute { ref_tx_id, client_id }
    }
}

impl ExecutableTransaction for Dispute {
    fn execute(&self, ledger: &mut Ledger) -> (r: Result<(), TransactionError>) {
        act_on_stored(DisputeAction::Dispute, self.ref_tx_id, self.client_id, ledger)
    }

    fn dispute(&mut self, _client: &mut Client) -> (r: Result<(), TransactionError>) {
        Err(TransactionError::DisputeNotSupported)
    }

    fn resolve(&mut self, _client: &mut Client) -> (r: Result<(), TransactionError>) {
        Err(TransactionError::DisputeNotSupported)
    }

    fn chargeback(&mut self, _client: &mut Client) -> (r: Result<(), TransactionError>) {
        Err(TransactionError::DisputeNotSupported)
    }

    fn id(&self) -> (r: Option<u32>) {
        None
    }
}

/// The end of a dispute on `ref_tx_id` in the client's favour.
#[derive(Debug)]
pub struct Resolve {
    ref_tx_id: u32,
    client_id: u16,
}

impl View for Resolve {
    type V = TransactionView;

    closed spec fn view(&self) -> TransactionView {
        TransactionView::Resolve { ref_tx_id: self.ref_tx_id, client_id: self.client_id }
    }
}

impl Resolve {
    /// A resolution of the dispute on `ref_tx_id`, in the name of
    /// `client_id`.
    pub fn new(ref_tx_id: u32, client_id: u16) -> (r: Resolve)
        ensures
            r@ == (TransactionView::Resolve { ref_tx_id, client_id }),
    {
        Resolve { ref_tx_id, client_id }
    }
}

impl ExecutableTransaction for Resolve {
    fn execute(&self, ledger: &mut Ledger) -> (r: Result<(), TransactionError>) {
        act_on_stored(DisputeAction::Resolve, self.ref_tx_id, self.client_id, ledger)
    }

    fn dispute(&mut self, _client: &mut Client) -> (r: Result<(), TransactionError>) {
        Err(TransactionError::DisputeNotSupported)
    }

    fn resolve(&mut self, _client: &mut Client) -> (r: Result<(), TransactionError>) {
        Err(TransactionError::DisputeNotSupported)
    }

    fn chargeback(&mut self, _client: &mut Client) -> (r: Result<(), TransactionError>) {
        Err(TransactionError::DisputeNotSupported)
    }

    fn id(&self) -> (r: Option<u32>) {
        None
    }
}

/// The end of a dispute on `ref_tx_id` against the client: the money goes
/// back and the account is locked.
#[derive(Debug)]
pub struct Chargeback {
    ref_tx_id: u32,
    client_id: u16,
}

impl View for Chargeback {
    type V = TransactionView;

    closed spec fn view(&self) -> TransactionView {
        TransactionView::Chargeback { ref_tx_id: self.ref_tx_id, client_id: self.client_id }
    }
}

impl Chargeback {
    /// A chargeback of the disputed transaction `ref_tx_id`, in the name of
    /// `client_id`.
    pub fn new(ref_tx_id: u32, client_id: u16) -> (r: Chargeback)
        ensures
            r@ == (TransactionView::Chargeback { ref_tx_id, client_id }),
    {
        Chargeback { ref_tx_id, client_id }
    }
}

impl ExecutableTransaction for Chargeback {
    fn execute(&self, ledger: &mut Ledger) -> (r: Result<(), TransactionError>) {
        act_on_stored(DisputeAction::Chargeback, self.ref_tx_id, self.client_id, ledger)
    }

    fn dispute(&mut self, _client: &mut Client) -> (r: Result<(), TransactionError>) {
        Err(TransactionError::DisputeNotSupported)
    }

    fn resolve(&mut self, _client: &mut Client) -> (r: Result<(), TransactionError>) {
        Err(TransactionError::DisputeNotSupported)
    }

    fn chargeback(&mut self, _client: &mut Client) -> (r: Result<(), TransactionError>) {
        Err(TransactionError::DisputeNotSupported)
    }

    fn id(&self) -> (r: Option<u32>) {
        None
    }
}

/// Any one of the five kinds of transaction.
#[derive(Debug)]
pub enum Transaction {
    Deposit(Deposit),
    Withdrawal(Withdrawal),
    Dispute(Dispute),
    Resolve(Resolve),
    Chargeback(Chargeback),
}

impl View for Transaction {
    type V = TransactionView;

    open spec fn view(&self) -> TransactionView {
        match self {
            Transaction::Deposit(t) => t@,
            Transaction::Withdrawal(t) => t@,
            Transaction::Dispute(t) => t@,
            Transaction::Resolve(t) => t@,
            Transaction::Chargeback(t) => t@,
        }
    }
}

impl Transaction {
    /// A transaction that only refers to another carries no amount, so
    /// nothing can be wrong with it.
    pub proof fn lemma_reference_is_wf(self)
        requires
            !(self is Deposit),
            !(self is Withdrawal),
        ensures
            self@.wf(),
    {
    }

    /// Whether `action` on this transaction can move its amount on `client`
    /// without rounding.
    pub fn acts_exactly(&self, action: DisputeAction, client: &Client) -> (r: bool)
        ensures
            r == self@.acts_exactly(action, client@),
    {
        match self {
            Transaction::Deposit(t) => {
                match action {
                    DisputeAction::Dispute => t.dispute_status.under_dispute()
                        || t.dispute_status.dispute_solved() || client.can_hold_funds(&t.amount),
                    DisputeAction::Resolve => !t.dispute_status.under_dispute()
                        || client.can_release_funds(&t.amount),
                    DisputeAction::Chargeback => !t.dispute_status.under_dispute()
                        || client.can_chargeback(&t.amount),
                }
            },
            _ => true,
        }
    }

    /// Whether [`execute`](ExecutableTransaction::execute) can run on
    /// `ledger`: the sums and differences that it would compute need no
    /// rounding.
    pub fn executes_exactly(&self, ledger: &Ledger) -> (r: bool)
        ensures
            r == self@.executes_exactly(ledger@),
    {
        match self {
            Transaction::Deposit(t) => match ledger.client(t.client_id) {
                Some(client) => client.can_deposit(&t.amount),
                None => Client::new(t.client_id).can_deposit(&t.amount),
            },
            Transaction::Withdrawal(t) => match ledger.client(t.client_id) {
                Some(client) => client.can_withdraw(&t.amount),
                None => true,
            },
            Transaction::Dispute(t) => stored_acts_exactly(
                DisputeAction::Dispute,
                t.ref_tx_id,
                t.client_id,
                ledger,
            ),
            Transaction::Resolve(t) => stored_acts_exactly(
                DisputeAction::Resolve,
                t.ref_tx_id,
                t.client_id,
                ledger,
            ),
            Transaction::Chargeback(t) => stored_acts_exactly(
                DisputeAction::Chargeback,
                t.ref_tx_id,
                t.client_id,
                ledger,
            ),
        }
    }
}

/// Whether `action` on the stored transaction `ref_tx_id` can compute on the
/// account of `client_id` without rounding.
fn stored_acts_exactly(action: DisputeAction, ref_tx_id: u32, client_id: u16, ledger: &Ledger) -> (r:
    bool)
    ensures
        r == TransactionView::act_is_exact(action, ref_tx_id, client_id, ledger@),
{
    match (ledger.client(client_id), ledger.transaction(ref_tx_id)) {
        (Some(client), Some(transaction)) => transaction.acts_exactly(action, client),
        _ => true,
    }
}

impl ExecutableTransaction for Transaction {
    fn execute(&self, ledger: &mut Ledger) -> (r: Result<(), TransactionError>) {
        match self {
            Transaction::Deposit(t) => t.execute(ledger),
            Transaction::Withdrawal(t) => t.execute(ledger),
            Transaction::Dispute(t) => t.execute(ledger),
            Transaction::Resolve(t) => t.execute(ledger),
            Transaction::Chargeback(t) => t.execute(ledger),
        }
    }

    fn dispute(&mut self, client: &mut Client) -> (r: Result<(), TransactionError>) {
        match self {
            Transaction::Deposit(t) => t.dispute(client),
            Transaction::Withdrawal(t) => t.dispute(client),
            Transaction::Dispute(t) => t.dispute(client),
            Transaction::Resolve(t) => t.dispute(client),
            Transaction::Chargeback(t) => t.dispute(client),
        }
    }

    fn resolve(&mut self, client: &mut Client) -> (r: Result<(), TransactionError>) {
        match self {
            Transaction::Deposit(t) => t.resolve(client),
            Transaction::Withdrawal(t) => t.resolve(client),
            Transaction::Dispute(t) => t.resolve(client),
            Transaction::Resolve(t) => t.resolve(client),
            Transaction::Chargeback(t) => t.resolve(client),
        }
    }

    fn chargeback(&mut self, client: &mut Client) -> (r: Result<(), TransactionError>) {
        match self {
            Transaction::Deposit(t) => t.chargeback(client),
            Transaction::Withdrawal(t) => t.chargeback(client),
            Transaction::Dispute(t) => t.chargeback(client),
            Transaction::Resolve(t) => t.chargeback(client),
            Transaction::Chargeback(t) => t.chargeback(client),
        }
    }

    fn id(&self) -> (r: Option<u32>) {
        match self {
            Transaction::Deposit(t) => t.id(),
            Transaction::Withdrawal(t) => t.id(),
            Transaction::Dispute(t) => t.id(),
            Transaction::Resolve(t) => t.id(),
            Transaction::Chargeback(t) => t.id(),
        }
    }
}

} // verus!
