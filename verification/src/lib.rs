//! Core of a small expense-splitting backend: the balance computation
//! engine that reconciles a group's expense and payment ledgers into
//! per-member net balances, the membership gate that authorizes ledger
//! operations, and the data types and validation rules shared by both.
//!
//! All monetary amounts are fixed-point decimals held as a count of
//! minor currency units (cents), never floating point, so that the
//! zero-sum invariant over a group's balances holds exactly.

pub mod auth;
pub mod authservice;
pub mod engine;
pub mod errors;
pub mod membership;
pub mod models;

pub use errors::AppError;
pub use errors::AppResult;
pub use errors::AuthError;
pub use errors::DatabaseError;
pub use errors::ExpenseError;
pub use errors::GroupError;
pub use errors::UserError;
pub use errors::ValidationError;
