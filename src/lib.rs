//! A custodial token faucet: configuration, per-requester throttling and
//! atomic fee-for-tokens payouts, modelled over in-process accounts.
//!
//! Each operation takes the accounts it touches in one context value and
//! either applies all of its effects or returns an error and leaves the
//! context exactly as it was.
pub mod faucet;
pub mod laws;
pub mod ledger;
pub mod state;
pub mod throttle;

pub use faucet::{close, create, deposit, payout, payout_amounts, update, withdraw};
pub use faucet::{Close, Create, Deposit, Payout, Update, Withdraw};
pub use state::{ErrorCode, Faucet, Pubkey, TokenAccount, Transaction};
pub use throttle::{payout_limit, transaction_count};
