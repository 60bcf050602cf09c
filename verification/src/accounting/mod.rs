//! Accounts, transactions and the ledger that applies one to the other.

use vstd::prelude::*;

pub mod client;
pub mod ledger;
pub mod transactions;

use client::Client;
use ledger::Ledger;
use transactions::{DisputeAction, TransactionView};

verus! {

/// Why a transaction was not applied.
#[derive(Debug, Clone, Copy, PartialEq, Eq, Structural)]
pub enum TransactionError {
    InsufficientFunds,
    AccountLocked,
    InvalidAmount,
    ClientNotFound,
    TransactionNotFound,
    DisputeNotSupported,
    TransactionUnderDispute,
    TransactionAlreadyDisputed,
    TransactionNotDisputed,
}

impl TransactionError {
    /// What the error says, in words.
    pub open spec fn message_text(self) -> Seq<char> {
        match self {
            TransactionError::InsufficientFunds => "insufficient funds"@,
            TransactionError::AccountLocked => "account is locked"@,
            TransactionError::InvalidAmount => "invalid amount"@,
            TransactionError::ClientNotFound => "client not found"@,
            TransactionError::TransactionNotFound => "transaction not found"@,
            TransactionError::DisputeNotSupported => "dispute not supported for this transaction"@,
            TransactionError::TransactionUnderDispute => "transaction is under a dispute"@,
            TransactionError::TransactionAlreadyDisputed => "transaction already has a resolved dispute"@,
            TransactionError::TransactionNotDisputed => "transaction is not under a dispute"@,
        }
    }

    /// What the error says, in words.
    pub fn message(&self) -> (r: &'static str)
        ensures
            r@ == self.message_text(),
    {
        match self {
            TransactionError::InsufficientFunds => "insufficient funds",
            TransactionError::AccountLocked => "account is locked",
            TransactionError::InvalidAmount => "invalid amount",
            TransactionError::ClientNotFound => "client not found",
            TransactionError::TransactionNotFound => "transaction not found",
            TransactionError::DisputeNotSupported => "dispute not supported for this transaction",
            TransactionError::TransactionUnderDispute => "transaction is under a dispute",
            TransactionError::TransactionAlreadyDisputed => "transaction already has a resolved dispute",
            TransactionError::TransactionNotDisputed => "transaction is not under a dispute",
        }
    }
}

/// What every transaction can be asked to do. Each method does what
/// [`TransactionView`] says of the transaction's view; a transaction that
/// cannot be disputed answers `DisputeNotSupported` and changes nothing.
pub trait ExecutableTransaction: View<V = TransactionView> + Sized {
    /// Applies the transaction to the ledger's accounts.
    fn execute(&self, ledger: &mut Ledger) -> (r: Result<(), TransactionError>)
        requires
            self@.executes_exactly(old(ledger)@),
        ensures
            r == self@.execute(old(ledger)@).0,
            final(ledger)@ == self@.execute(old(ledger)@).1,
    ;

    /// Opens a dispute on this transaction, holding its amount on `client`.
    fn dispute(&mut self, client: &mut Client) -> (r: Result<(), TransactionError>)
        requires
            old(self)@.acts_exactly(DisputeAction::Dispute, old(client)@),
        ensures
            r == old(self)@.outcome(DisputeAction::Dispute),
            final(self)@ == old(self)@.after(DisputeAction::Dispute),
            final(client)@ == old(self)@.client_after(DisputeAction::Dispute, old(client)@),
    ;

    /// Settles a dispute in the client's favour, releasing the held amount.
    fn resolve(&mut self, client: &mut Client) -> (r: Result<(), TransactionError>)
        requires
            old(self)@.acts_exactly(DisputeAction::Resolve, old(client)@),
        ensures
            r == old(self)@.outcome(DisputeAction::Resolve),
            final(self)@ == old(self)@.after(DisputeAction::Resolve),
            final(client)@ == old(self)@.client_after(DisputeAction::Resolve, old(client)@),
    ;

    /// Settles a dispute by taking the held amount back and locking `client`.
    fn chargeback(&mut self, client: &mut Client) -> (r: Result<(), TransactionError>)
        requires
            old(self)@.acts_exactly(DisputeAction::Chargeback, old(client)@),
        ensures
            r == old(self)@.outcome(DisputeAction::Chargeback),
            final(self)@ == old(self)@.after(DisputeAction::Chargeback),
            final(client)@ == old(self)@.client_after(DisputeAction::Chargeback, old(client)@),
    ;

    /// The transaction's own id; `None` for one that only refers to another.
    fn id(&self) -> (r: Option<u32>)
        ensures
            r == self@.id(),
    ;
}

} // verus!
