pub mod apperrors;
pub use apperrors::AppError;
pub use apperrors::AppResult;

pub mod autherrors;
pub use autherrors::AuthError;

pub mod dberrors;
pub use dberrors::DatabaseError;

pub mod expenseerrors;
pub use expenseerrors::ExpenseError;

pub mod grouperrors;
pub use grouperrors::GroupError;

pub mod usererrors;
pub use usererrors::UserError;

pub mod validationerrors;
pub use validationerrors::ValidationError;
