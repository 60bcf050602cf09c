//! Records as they come in from, and go out to, the outside: one per
//! transaction read, one per account written.

use crate::accounting::client::Client;
use crate::accounting::transactions::{
    Chargeback, Deposit, Dispute, DisputeStatus, Resolve, Transaction, TransactionView, Withdrawal,
};
use crate::accounting::TransactionError;
use crate::amount::{Amount, AmountView};
use vstd::prelude::*;

verus! {

/// The kind of transaction that a record asks for.
#[derive(Debug, Clone, Copy, PartialEq, Eq, Structural)]
pub enum TransactionType {
    Deposit,
    Withdrawal,
    Dispute,
    Resolve,
    Chargeback,
}

/// Why a record does not make a transaction.
#[derive(Debug, Clone, Copy, PartialEq, Eq, Structural)]
pub enum TransactionDataError {
    MissingAmount,
    TransactionCreationError(TransactionError),
}

impl TransactionDataError {
    /// What the error says, in words.
    pub open spec fn message_text(self) -> Seq<char> {
        match self {
            TransactionDataError::MissingAmount => "transaction requires amount"@,
            TransactionDataError::TransactionCreationError(e) => e.message_text(),
        }
    }

    /// What the error says, in words.
    pub fn message(&self) -> (r: &'static str)
        ensures
            r@ == self.message_text(),
    {
        match self {
            TransactionDataError::MissingAmount => "transaction requires amount",
            TransactionDataError::TransactionCreationError(e) => e.message(),
        }
    }
}

/// One transaction as it is read: `id` names the transaction itself for a
/// deposit or a withdrawal, and the transaction referred to for the others.
#[derive(Debug)]
pub struct TransactionRecord {
    pub id: u32,
    pub type_: TransactionType,
    pub client_id: u16,
    pub amount: Option<Amount>,
}

impl TransactionRecord {
    /// The transaction that the record asks for. A deposit or a withdrawal
    /// needs an amount, and a positive one; the others ignore it.
    pub open spec fn transaction(self) -> Result<TransactionView, TransactionDataError> {
        match self.type_ {
            TransactionType::Deposit => match self.amount {
                Some(amount) => if amount@.mantissa > 0 {
                    Ok(
                        TransactionView::Deposit {
                            id: self.id,
                            client_id: self.client_id,
                            amount: amount@,
                            dispute_status: DisputeStatus::NoDispute,
                        },
                    )
                } else {
                    Err(
                        TransactionDataError::TransactionCreationError(
                            TransactionError::InvalidAmount,
                        ),
                    )
                },
                None => Err(TransactionDataError::MissingAmount),
            },
            TransactionType::Withdrawal => match self.amount {
                Some(amount) => if amount@.mantissa > 0 {
                    Ok(
                        TransactionView::Withdrawal {
                            id: self.id,
                            client_id: self.client_id,
                            amount: amount@,
                        },
                    )
                } else {
                    Err(
                        TransactionDataError::TransactionCreationError(
                            TransactionError::InvalidAmount,
                        ),
                    )
                },
                None => Err(TransactionDataError::MissingAmount),
            },
            TransactionType::Dispute => Ok(
                TransactionView::Dispute { ref_tx_id: self.id, client_id: self.client_id },
            ),
            TransactionType::Resolve => Ok(
                TransactionView::Resolve { ref_tx_id: self.id, client_id: self.client_id },
            ),
            TransactionType::Chargeback => Ok(
                TransactionView::Chargeback { ref_tx_id: self.id, client_id: self.client_id },
            ),
        }
    }
}

impl Transaction {
    /// Makes the transaction that `record` asks for.
    pub fn try_from(record: TransactionRecord) -> (r: Result<Transaction, TransactionDataError>)
        ensures
            match r {
                Ok(transaction) => record.transaction() == Ok::<
                    TransactionView,
                    TransactionDataError,
                >(transaction@),
                Err(e) => record.transaction() == Err::<TransactionView, TransactionDataError>(e),
            },
    {
        match record.type_ {
            TransactionType::Deposit => {
                if let Some(amount) = record.amount {
                    match Deposit::new(record.id, record.client_id, amount) {
                        Ok(deposit) => Ok(Transaction::Deposit(deposit)),
                        Err(e) => Err(TransactionDataError::TransactionCreationError(e)),
                    }
                } else {
                    Err(TransactionDataError::MissingAmount)
                }
            },
            TransactionType::Withdrawal => {
                if let Some(amount) = record.amount {
                    match Withdrawal::new(record.id, record.client_id, amount) {
                        Ok(withdrawal) => Ok(Transaction::Withdrawal(withdrawal)),
                        Err(e) => Err(TransactionDataError::TransactionCreationError(e)),
                    }
                } else {
                    Err(TransactionDataError::MissingAmount)
                }
            },
            TransactionType::Dispute => Ok(
                Transaction::Dispute(Dispute::new(record.id, record.client_id)),
            ),
            TransactionType::Resolve => Ok(
                Transaction::Resolve(Resolve::new(record.id, record.client_id)),
            ),
            TransactionType::Chargeback => Ok(
                Transaction::Chargeback(Chargeback::new(record.id, record.client_id)),
            ),
        }
    }
}

/// One account as it is written out.
#[derive(Debug)]
pub struct ClientRecord {
    pub id: u16,
    pub available: Amount,
    pub held: Amount,
    pub total: Amount,
    pub locked: bool,
}

impl ClientRecord {
    /// The record of `client`: its balances, their sum, and the lock.
    pub fn from(client: &Client) -> (r: ClientRecord)
        requires
            client@.totals_exactly(),
        ensures
            r.id == client@.id,
            r.available@ == client@.available,
            r.held@ == client@.held,
            r.total@ == client@.total(),
            r.total@.units() == r.available@.units() + r.held@.units(),
            r.locked == client@.locked,
    {
        ClientRecord {
            id: client.id(),
            available: client.available(),
            held: client.held(),
            total: client.get_total(),
            locked: client.locked(),
        }
    }
}

} // verus!
