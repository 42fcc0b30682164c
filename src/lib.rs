//! A token lock-up program core: a lock record's state machine, with
//! period selection, reward accrual and the byte formats it is stored in.
pub mod error;
pub mod period;
pub mod record;
pub mod instruction;
pub mod rewards;
pub mod token_account;
pub mod processor;
pub mod laws;
pub mod dispatch;
