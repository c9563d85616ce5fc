//! A payments engine: exact fixed-point amounts, per-client accounts, and the
//! deposit, withdrawal, dispute, resolve and chargeback rules that move funds
//! between them.

pub mod amount;
pub mod ledger;
pub mod processor;
pub mod transaction;

pub use amount::Amount;
pub use processor::{Account, PaymentProcessor};
pub use transaction::{ClientId, Transaction, TransactionId, TransactionType};
