use transacto::accounting::client::Client;
use transacto::accounting::ledger::Ledger;
use transacto::accounting::transactions::{
    Chargeback, Deposit, Dispute, DisputeAction, DisputeStatus, Resolve, Transaction, Withdrawal,
};
use transacto::accounting::{ExecutableTransaction, TransactionError};
use transacto::amount::{Amount, MAX_MANTISSA};
use transacto::data::{ClientRecord, TransactionDataError, TransactionRecord, TransactionType};

fn amount(mantissa: i128, scale: u32) -> Amount {
    Amount::new(mantissa, scale).unwrap()
}

fn deposit(id: u32, client_id: u16, mantissa: i128, scale: u32) -> Transaction {
    Transaction::Deposit(Deposit::new(id, client_id, amount(mantissa, scale)).unwrap())
}

fn withdrawal(id: u32, client_id: u16, mantissa: i128, scale: u32) -> Transaction {
    Transaction::Withdrawal(Withdrawal::new(id, client_id, amount(mantissa, scale)).unwrap())
}

fn balances(ledger: &Ledger, client_id: u16) -> (Amount, Amount, bool) {
    let client = ledger.client(client_id).unwrap();
    (client.available(), client.held(), client.locked())
}

#[test]
fn new_ledger_is_empty() {
    let ledger = Ledger::new();
    assert!(ledger.clients().is_empty());
    assert!(ledger.client(0).is_none());
    assert!(ledger.transaction(0).is_none());
    assert_eq!(ledger.clients_iter().count(), 0);
    assert!(Ledger::default().clients().is_empty());
}

#[test]
fn stream_of_deposit_and_withdrawal() {
    let mut ledger = Ledger::new();
    assert_eq!(ledger.execute_transaction(deposit(0, 0, 10, 0)), Ok(()));
    assert_eq!(ledger.execute_transaction(withdrawal(1, 0, 7, 0)), Ok(()));

    let client = ledger.client(0).unwrap();
    assert_eq!(client.id(), 0);
    assert_eq!(client.available(), amount(3, 0));
    assert_eq!(client.held(), amount(0, 0));
    assert_eq!(client.get_total(), amount(3, 0));
    assert_eq!(client.locked(), false);
    assert_eq!(ledger.clients().len(), 1);
}

#[test]
fn applied_transactions_are_stored_under_their_id() {
    let mut ledger = Ledger::new();
    ledger.execute_transaction(deposit(7, 3, 10, 0)).unwrap();
    ledger.execute_transaction(withdrawal(9, 3, 1, 0)).unwrap();
    ledger.execute_transaction(Transaction::Dispute(Dispute::new(7, 3))).unwrap();

    assert_eq!(ledger.transaction(7).unwrap().id(), Some(7));
    assert!(matches!(ledger.transaction(7), Some(Transaction::Deposit(_))));
    assert!(matches!(ledger.transaction(9), Some(Transaction::Withdrawal(_))));
    assert!(ledger.transaction(3).is_none());
    assert!(ledger.transaction(0).is_none());
}

#[test]
fn seen_id_is_passed_over_whatever_the_transaction_holds() {
    let mut ledger = Ledger::new();
    ledger.execute_transaction(deposit(0, 0, 5, 0)).unwrap();

    assert_eq!(ledger.execute_transaction(deposit(0, 7, 100, 0)), Ok(()));
    assert_eq!(ledger.execute_transaction(withdrawal(0, 0, 1, 0)), Ok(()));
    assert_eq!(ledger.execute_transaction(withdrawal(0, 9, 1000, 0)), Ok(()));

    assert_eq!(ledger.clients().len(), 1);
    assert_eq!(balances(&ledger, 0), (amount(5, 0), amount(0, 0), false));
    assert!(matches!(ledger.transaction(0), Some(Transaction::Deposit(_))));
}

#[test]
fn refused_transaction_is_not_stored() {
    let mut ledger = Ledger::new();
    ledger.execute_transaction(deposit(0, 0, 5, 0)).unwrap();

    assert_eq!(
        ledger.execute_transaction(withdrawal(1, 0, 100, 0)),
        Err(TransactionError::InsufficientFunds)
    );
    assert!(ledger.transaction(1).is_none());
    assert_eq!(balances(&ledger, 0), (amount(5, 0), amount(0, 0), false));

    assert_eq!(ledger.execute_transaction(withdrawal(1, 0, 2, 0)), Ok(()));
    assert_eq!(balances(&ledger, 0), (amount(3, 0), amount(0, 0), false));

    assert_eq!(
        ledger.execute_transaction(withdrawal(2, 4, 2, 0)),
        Err(TransactionError::ClientNotFound)
    );
    assert!(ledger.transaction(2).is_none());
    assert!(ledger.client(4).is_none());
}

#[test]
fn withdrawal_of_all_that_is_available() {
    let mut ledger = Ledger::new();
    ledger.execute_transaction(deposit(0, 0, 105, 1)).unwrap();
    assert_eq!(ledger.execute_transaction(withdrawal(1, 0, 1050, 2)), Ok(()));
    assert_eq!(balances(&ledger, 0), (amount(0, 0), amount(0, 0), false));
    assert_eq!(
        ledger.execute_transaction(withdrawal(2, 0, 1, 4)),
        Err(TransactionError::InsufficientFunds)
    );
}

#[test]
fn dispute_of_a_disputed_deposit() {
    let mut ledger = Ledger::new();
    ledger.execute_transaction(deposit(0, 0, 51, 0)).unwrap();
    ledger.execute_transaction(Transaction::Dispute(Dispute::new(0, 0))).unwrap();
    assert_eq!(balances(&ledger, 0), (amount(0, 0), amount(51, 0), false));

    assert_eq!(
        ledger.execute_transaction(Transaction::Dispute(Dispute::new(0, 0))),
        Err(TransactionError::TransactionUnderDispute)
    );
    assert_eq!(balances(&ledger, 0), (amount(0, 0), amount(51, 0), false));
}

#[test]
fn resolved_deposit_takes_no_further_action() {
    let mut ledger = Ledger::new();
    ledger.execute_transaction(deposit(0, 0, 51, 0)).unwrap();
    ledger.execute_transaction(Transaction::Dispute(Dispute::new(0, 0))).unwrap();
    ledger.execute_transaction(Transaction::Resolve(Resolve::new(0, 0))).unwrap();
    assert_eq!(balances(&ledger, 0), (amount(51, 0), amount(0, 0), false));

    for _ in 0..2 {
        assert_eq!(
            ledger.execute_transaction(Transaction::Dispute(Dispute::new(0, 0))),
            Err(TransactionError::TransactionAlreadyDisputed)
        );
        assert_eq!(
            ledger.execute_transaction(Transaction::Resolve(Resolve::new(0, 0))),
            Err(TransactionError::TransactionAlreadyDisputed)
        );
        assert_eq!(
            ledger.execute_transaction(Transaction::Chargeback(Chargeback::new(0, 0))),
            Err(TransactionError::TransactionAlreadyDisputed)
        );
        assert_eq!(balances(&ledger, 0), (amount(51, 0), amount(0, 0), false));
    }
}

#[test]
fn dispute_holds_on_the_account_that_it_names() {
    let mut ledger = Ledger::new();
    ledger.execute_transaction(deposit(0, 0, 5, 0)).unwrap();
    ledger.execute_transaction(deposit(1, 1, 2, 0)).unwrap();
    ledger.execute_transaction(Transaction::Dispute(Dispute::new(0, 1))).unwrap();

    assert_eq!(balances(&ledger, 0), (amount(5, 0), amount(0, 0), false));
    assert_eq!(balances(&ledger, 1), (amount(-3, 0), amount(5, 0), false));
}

#[test]
fn dispute_of_a_deposit_partly_withdrawn() {
    let mut ledger = Ledger::new();
    ledger.execute_transaction(deposit(0, 0, 5, 0)).unwrap();
    ledger.execute_transaction(withdrawal(1, 0, 32, 1)).unwrap();
    ledger.execute_transaction(Transaction::Dispute(Dispute::new(0, 0))).unwrap();

    let (available, held, locked) = balances(&ledger, 0);
    assert_eq!(available, amount(-32, 1));
    assert_eq!(held, amount(5, 0));
    assert!(!locked);
    assert_eq!(ledger.client(0).unwrap().get_total(), amount(18, 1));
}

#[test]
fn balances_keep_four_fractional_digits() {
    let mut ledger = Ledger::new();
    ledger.execute_transaction(deposit(0, 0, 31415926535, 10)).unwrap();
    let (available, held, _) = balances(&ledger, 0);
    assert_eq!((available.mantissa(), available.scale()), (31416, 4));
    assert_eq!((held.mantissa(), held.scale()), (0, 0));

    ledger.execute_transaction(Transaction::Dispute(Dispute::new(0, 0))).unwrap();
    let (available, held, _) = balances(&ledger, 0);
    assert_eq!((available.mantissa(), available.scale()), (0, 4));
    assert_eq!((held.mantissa(), held.scale()), (31416, 4));

    ledger.execute_transaction(Transaction::Resolve(Resolve::new(0, 0))).unwrap();
    let (available, held, _) = balances(&ledger, 0);
    assert_eq!((available.mantissa(), available.scale()), (31416, 4));
    assert_eq!((held.mantissa(), held.scale()), (0, 4));
}

#[test]
fn deposits_round_half_to_even() {
    let mut ledger = Ledger::new();
    ledger.execute_transaction(deposit(0, 0, 5, 5)).unwrap();
    assert_eq!(ledger.client(0).unwrap().available(), amount(0, 0));
    ledger.execute_transaction(deposit(1, 0, 1, 4)).unwrap();
    assert_eq!(ledger.client(0).unwrap().available(), amount(1, 4));
    ledger.execute_transaction(deposit(2, 0, 5, 5)).unwrap();
    assert_eq!(ledger.client(0).unwrap().available(), amount(2, 4));
    ledger.execute_transaction(deposit(3, 0, 5, 5)).unwrap();
    assert_eq!(ledger.client(0).unwrap().available(), amount(2, 4));
    ledger.execute_transaction(deposit(4, 0, 50001, 9)).unwrap();
    assert_eq!(ledger.client(0).unwrap().available(), amount(3, 4));
}

#[test]
fn accepts_what_can_be_computed_exactly() {
    let mut ledger = Ledger::new();
    assert!(ledger.accepts(&deposit(0, 0, MAX_MANTISSA, 0)));
    ledger.execute_transaction(deposit(0, 0, MAX_MANTISSA, 0)).unwrap();

    assert!(!ledger.accepts(&deposit(1, 0, 1, 0)));
    assert!(!ledger.accepts(&deposit(1, 0, 1, 4)));
    assert!(ledger.accepts(&deposit(0, 0, 1, 0)));
    assert!(ledger.accepts(&deposit(1, 1, 1, 28)));
    assert!(ledger.accepts(&withdrawal(1, 0, 1, 0)));
    assert!(!ledger.accepts(&withdrawal(1, 0, 1, 1)));
    assert!(ledger.accepts(&withdrawal(1, 1, 1, 1)));
    assert!(ledger.accepts(&Transaction::Dispute(Dispute::new(0, 0))));
    assert!(ledger.accepts(&Transaction::Dispute(Dispute::new(5, 0))));
    assert!(ledger.accepts(&Transaction::Resolve(Resolve::new(0, 0))));
    assert!(ledger.accepts(&Transaction::Chargeback(Chargeback::new(0, 3))));

    ledger.execute_transaction(deposit(2, 1, 10, 0)).unwrap();
    assert!(ledger.accepts(&Transaction::Dispute(Dispute::new(2, 0))));
    assert!(ledger.accepts(&Transaction::Dispute(Dispute::new(2, 1))));
    assert!(!ledger.accepts(&deposit(3, 1, 1, 28)));
    assert!(ledger.accepts(&deposit(3, 1, 1, 27)));

    ledger.execute_transaction(deposit(4, 1, 1, 1)).unwrap();
    assert!(!ledger.accepts(&Transaction::Dispute(Dispute::new(4, 0))));
    assert!(ledger.accepts(&Transaction::Dispute(Dispute::new(4, 1))));
    assert!(ledger.accepts(&Transaction::Resolve(Resolve::new(4, 0))));
    assert!(ledger.accepts(&Transaction::Chargeback(Chargeback::new(4, 0))));
}

#[test]
fn clients_iter_yields_every_account_once() {
    let mut ledger = Ledger::new();
    ledger.execute_transaction(deposit(0, 4, 1, 0)).unwrap();
    ledger.execute_transaction(deposit(1, 2, 2, 0)).unwrap();
    ledger.execute_transaction(deposit(2, 9, 3, 0)).unwrap();
    ledger.execute_transaction(deposit(3, 2, 4, 0)).unwrap();

    let mut seen: Vec<(u16, u16, i128)> = ledger
        .clients_iter()
        .map(|(id, client)| (*id, client.id(), client.available().mantissa()))
        .collect();
    seen.sort();
    assert_eq!(seen, vec![(2, 2, 6), (4, 4, 1), (9, 9, 3)]);
}

#[test]
fn client_starts_empty() {
    let client = Client::new(42);
    assert_eq!(client.id(), 42);
    assert_eq!(client.available(), Amount::zero());
    assert_eq!(client.held(), Amount::zero());
    assert!(!client.locked());
    assert!(client.total_is_exact());
    assert_eq!(client.get_total(), Amount::zero());
}

#[test]
fn client_moves_funds() {
    let mut client = Client::new(1);
    client.deposit(amount(1055, 2));
    assert_eq!(client.available(), amount(1055, 2));

    assert_eq!(client.withdraw(amount(1056, 2)), Err(TransactionError::InsufficientFunds));
    assert_eq!(client.available(), amount(1055, 2));
    assert_eq!(client.withdraw(amount(55, 2)), Ok(()));
    assert_eq!(client.available(), amount(10, 0));

    client.hold_funds(amount(25, 1));
    assert_eq!((client.available(), client.held()), (amount(75, 1), amount(25, 1)));
    assert_eq!(client.get_total(), amount(10, 0));

    client.release_funds(amount(5, 1));
    assert_eq!((client.available(), client.held()), (amount(8, 0), amount(2, 0)));
    assert_eq!(client.get_total(), amount(10, 0));

    client.hold_funds(amount(20, 0));
    assert_eq!((client.available(), client.held()), (amount(-12, 0), amount(22, 0)));
    assert_eq!(client.get_total(), amount(10, 0));

    client.chargeback(amount(22, 0));
    assert_eq!((client.available(), client.held()), (amount(-12, 0), amount(0, 0)));
    assert!(client.locked());
    assert_eq!(client.get_total(), amount(-12, 0));

    assert_eq!(client.withdraw(amount(1, 0)), Err(TransactionError::AccountLocked));
    client.deposit(amount(20, 0));
    assert_eq!(client.available(), amount(8, 0));
    assert_eq!(client.withdraw(amount(1, 0)), Err(TransactionError::AccountLocked));
    assert_eq!(client.available(), amount(8, 0));
}

#[test]
fn client_tells_what_it_can_compute() {
    let mut client = Client::new(1);
    client.deposit(amount(MAX_MANTISSA, 4));
    assert!(client.can_deposit(&amount(0, 28)));
    assert!(!client.can_deposit(&amount(1, 4)));
    assert!(client.can_deposit(&amount(-1, 4)));
    assert!(client.can_withdraw(&amount(1, 4)));
    assert!(!client.can_withdraw(&amount(1, 5)));
    assert!(client.can_withdraw(&amount(MAX_MANTISSA, 0)));
    assert!(client.can_hold_funds(&amount(1, 4)));
    assert!(!client.can_hold_funds(&amount(1, 5)));
    assert!(client.can_chargeback(&amount(MAX_MANTISSA, 0)));
    assert!(!client.can_release_funds(&amount(1, 4)));
    assert!(client.total_is_exact());

    client.hold_funds(amount(MAX_MANTISSA, 4));
    client.deposit(amount(1, 4));
    assert_eq!((client.available(), client.held()), (amount(1, 4), amount(MAX_MANTISSA, 4)));
    assert!(!client.total_is_exact());
    assert!(client.can_release_funds(&amount(1, 4)));
    assert!(!client.can_release_funds(&amount(1, 5)));
    assert!(client.can_chargeback(&amount(1, 4)));
    assert!(!client.can_chargeback(&amount(-1, 4)));
    assert!(!client.can_hold_funds(&amount(1, 4)));
}

#[test]
fn deposit_runs_the_dispute_state_machine() {
    let mut client = Client::new(0);
    client.deposit(amount(10, 0));
    let mut deposit = Deposit::new(3, 0, amount(4, 0)).unwrap();
    assert_eq!(deposit.id(), Some(3));

    assert_eq!(deposit.resolve(&mut client), Err(TransactionError::TransactionNotDisputed));
    assert_eq!(deposit.chargeback(&mut client), Err(TransactionError::TransactionNotDisputed));
    assert_eq!((client.available(), client.held()), (amount(10, 0), amount(0, 0)));

    assert_eq!(deposit.dispute(&mut client), Ok(()));
    assert_eq!((client.available(), client.held()), (amount(6, 0), amount(4, 0)));
    assert_eq!(deposit.dispute(&mut client), Err(TransactionError::TransactionUnderDispute));
    assert_eq!((client.available(), client.held()), (amount(6, 0), amount(4, 0)));

    assert_eq!(deposit.chargeback(&mut client), Ok(()));
    assert_eq!((client.available(), client.held()), (amount(6, 0), amount(0, 0)));
    assert!(client.locked());

    assert_eq!(deposit.dispute(&mut client), Err(TransactionError::TransactionAlreadyDisputed));
    assert_eq!(deposit.resolve(&mut client), Err(TransactionError::TransactionAlreadyDisputed));
    assert_eq!(deposit.chargeback(&mut client), Err(TransactionError::TransactionAlreadyDisputed));
    assert_eq!((client.available(), client.held()), (amount(6, 0), amount(0, 0)));
}

#[test]
fn only_deposits_support_disputes() {
    let mut client = Client::new(0);
    client.deposit(amount(10, 0));

    let mut others = vec![
        Transaction::Withdrawal(Withdrawal::new(1, 0, amount(1, 0)).unwrap()),
        Transaction::Dispute(Dispute::new(1, 0)),
        Transaction::Resolve(Resolve::new(1, 0)),
        Transaction::Chargeback(Chargeback::new(1, 0)),
    ];
    for other in others.iter_mut() {
        assert_eq!(other.dispute(&mut client), Err(TransactionError::DisputeNotSupported));
        assert_eq!(other.resolve(&mut client), Err(TransactionError::DisputeNotSupported));
        assert_eq!(other.chargeback(&mut client), Err(TransactionError::DisputeNotSupported));
        assert!(other.acts_exactly(DisputeAction::Dispute, &client));
    }
    assert_eq!((client.available(), client.held()), (amount(10, 0), amount(0, 0)));
    assert!(!client.locked());

    let mut withdrawal = Withdrawal::new(1, 0, amount(1, 0)).unwrap();
    assert_eq!(withdrawal.dispute(&mut client), Err(TransactionError::DisputeNotSupported));
    assert_eq!(withdrawal.resolve(&mut client), Err(TransactionError::DisputeNotSupported));
    assert_eq!(withdrawal.chargeback(&mut client), Err(TransactionError::DisputeNotSupported));
    let mut dispute = Dispute::new(1, 0);
    assert_eq!(dispute.dispute(&mut client), Err(TransactionError::DisputeNotSupported));
    let mut resolve = Resolve::new(1, 0);
    assert_eq!(resolve.resolve(&mut client), Err(TransactionError::DisputeNotSupported));
    let mut chargeback = Chargeback::new(1, 0);
    assert_eq!(chargeback.chargeback(&mut client), Err(TransactionError::DisputeNotSupported));
}

#[test]
fn only_deposits_and_withdrawals_have_an_id() {
    assert_eq!(Deposit::new(5, 0, amount(1, 0)).unwrap().id(), Some(5));
    assert_eq!(Withdrawal::new(6, 0, amount(1, 0)).unwrap().id(), Some(6));
    assert_eq!(Dispute::new(5, 0).id(), None);
    assert_eq!(Resolve::new(5, 0).id(), None);
    assert_eq!(Chargeback::new(5, 0).id(), None);
    assert_eq!(deposit(8, 0, 1, 0).id(), Some(8));
    assert_eq!(Transaction::Chargeback(Chargeback::new(8, 0)).id(), None);
}

#[test]
fn amount_must_be_positive() {
    assert!(Deposit::new(0, 0, amount(1, 28)).is_ok());
    assert!(Withdrawal::new(0, 0, amount(1, 28)).is_ok());
    assert!(matches!(Deposit::new(0, 0, amount(0, 28)), Err(TransactionError::InvalidAmount)));
    assert!(matches!(Deposit::new(0, 0, amount(-1, 28)), Err(TransactionError::InvalidAmount)));
    assert!(matches!(Withdrawal::new(0, 0, amount(0, 3)), Err(TransactionError::InvalidAmount)));
    assert!(matches!(
        Withdrawal::new(0, 0, amount(-MAX_MANTISSA, 0)),
        Err(TransactionError::InvalidAmount)
    ));
}

#[test]
fn dispute_status_tells_its_stage() {
    assert!(!DisputeStatus::NoDispute.under_dispute());
    assert!(DisputeStatus::InDispute.under_dispute());
    assert!(!DisputeStatus::Resolved.under_dispute());
    assert!(!DisputeStatus::Chargedback.under_dispute());
    assert!(!DisputeStatus::NoDispute.dispute_solved());
    assert!(!DisputeStatus::InDispute.dispute_solved());
    assert!(DisputeStatus::Resolved.dispute_solved());
    assert!(DisputeStatus::Chargedback.dispute_solved());
}

#[test]
fn record_makes_the_transaction_it_asks_for() {
    let record = |type_, amount| TransactionRecord { id: 4, type_, client_id: 2, amount };
    let mut ledger = Ledger::new();

    let deposit = Transaction::try_from(record(TransactionType::Deposit, Some(amount(15, 1))));
    let deposit = deposit.unwrap();
    assert!(matches!(deposit, Transaction::Deposit(_)));
    assert_eq!(deposit.id(), Some(4));
    ledger.execute_transaction(deposit).unwrap();
    assert_eq!(balances(&ledger, 2), (amount(15, 1), amount(0, 0), false));

    let dispute = Transaction::try_from(record(TransactionType::Dispute, None)).unwrap();
    assert!(matches!(dispute, Transaction::Dispute(_)));
    assert_eq!(dispute.id(), None);
    ledger.execute_transaction(dispute).unwrap();
    assert_eq!(balances(&ledger, 2), (amount(0, 0), amount(15, 1), false));

    let resolve = Transaction::try_from(record(TransactionType::Resolve, Some(amount(-1, 0))));
    let resolve = resolve.unwrap();
    assert!(matches!(resolve, Transaction::Resolve(_)));
    ledger.execute_transaction(resolve).unwrap();
    assert_eq!(balances(&ledger, 2), (amount(15, 1), amount(0, 0), false));

    let withdrawal = TransactionRecord {
        id: 5,
        type_: TransactionType::Withdrawal,
        client_id: 2,
        amount: Some(amount(5, 1)),
    };
    let withdrawal = Transaction::try_from(withdrawal).unwrap();
    assert!(matches!(withdrawal, Transaction::Withdrawal(_)));
    assert_eq!(withdrawal.id(), Some(5));
    ledger.execute_transaction(withdrawal).unwrap();
    assert_eq!(balances(&ledger, 2), (amount(1, 0), amount(0, 0), false));

    let chargeback = Transaction::try_from(record(TransactionType::Chargeback, None)).unwrap();
    assert!(matches!(chargeback, Transaction::Chargeback(_)));
    assert_eq!(
        ledger.execute_transaction(chargeback),
        Err(TransactionError::TransactionAlreadyDisputed)
    );
}

#[test]
fn record_without_a_usable_amount_makes_none() {
    let record = |type_, amount| TransactionRecord { id: 4, type_, client_id: 2, amount };

    for type_ in [TransactionType::Deposit, TransactionType::Withdrawal] {
        assert!(matches!(
            Transaction::try_from(record(type_, None)),
            Err(TransactionDataError::MissingAmount)
        ));
        assert!(matches!(
            Transaction::try_from(record(type_, Some(amount(0, 0)))),
            Err(TransactionDataError::TransactionCreationError(TransactionError::InvalidAmount))
        ));
        assert!(matches!(
            Transaction::try_from(record(type_, Some(amount(-7, 2)))),
            Err(TransactionDataError::TransactionCreationError(TransactionError::InvalidAmount))
        ));
    }
}

#[test]
fn client_record_adds_up_the_balances() {
    let mut client = Client::new(6);
    client.deposit(amount(10, 0));
    client.hold_funds(amount(135, 1));

    let record = ClientRecord::from(&client);
    assert_eq!(record.id, 6);
    assert_eq!(record.available, amount(-35, 1));
    assert_eq!(record.held, amount(135, 1));
    assert_eq!(record.total, amount(10, 0));
    assert_eq!(record.locked, false);

    client.chargeback(amount(135, 1));
    let record = ClientRecord::from(&client);
    assert_eq!(record.total, amount(-35, 1));
    assert_eq!(record.locked, true);
}

#[test]
fn errors_say_what_went_wrong() {
    assert_eq!(TransactionError::InsufficientFunds.message(), "insufficient funds");
    assert_eq!(TransactionError::AccountLocked.message(), "account is locked");
    assert_eq!(TransactionError::InvalidAmount.message(), "invalid amount");
    assert_eq!(TransactionError::ClientNotFound.message(), "client not found");
    assert_eq!(TransactionError::TransactionNotFound.message(), "transaction not found");
    assert_eq!(
        TransactionError::DisputeNotSupported.message(),
        "dispute not supported for this transaction"
    );
    assert_eq!(
        TransactionError::TransactionUnderDispute.message(),
        "transaction is under a dispute"
    );
    assert_eq!(
        TransactionError::TransactionAlreadyDisputed.message(),
        "transaction already has a resolved dispute"
    );
    assert_eq!(
        TransactionError::TransactionNotDisputed.message(),
        "transaction is not under a dispute"
    );
    assert_eq!(TransactionDataError::MissingAmount.message(), "transaction requires amount");
    assert_eq!(
        TransactionDataError::TransactionCreationError(TransactionError::InvalidAmount).message(),
        "invalid amount"
    );
}
