//! A transaction engine: it replays deposits, withdrawals, disputes,
//! resolutions and chargebacks against client accounts.

pub mod accounting;
pub mod amount;
pub mod data;
