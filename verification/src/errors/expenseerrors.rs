//! Failures of expense recording and balance computation.

use vstd::prelude::*;

verus! {

#[derive(Clone, Debug, PartialEq, Eq)]
pub enum ExpenseError {
    NotFound,
    InvalidAmount(String),
    CalculationError(String),
    InsufficientFunds,
    DuplicateExpense,
}

impl ExpenseError {
    /// The HTTP status this failure maps to.
    pub open spec fn status_code_spec(&self) -> u16 {
        match self {
            ExpenseError::NotFound => 404,
            ExpenseError::InvalidAmount(_) => 400,
            ExpenseError::DuplicateExpense => 400,
            ExpenseError::InsufficientFunds => 402,
            ExpenseError::CalculationError(_) => 500,
        }
    }

    pub fn status_code(&self) -> (code: u16)
        ensures
            code == self.status_code_spec(),
    {
        match self {
            ExpenseError::NotFound => 404,
            ExpenseError::InvalidAmount(_) | ExpenseError::DuplicateExpense => 400,
            ExpenseError::InsufficientFunds => 402,
            ExpenseError::CalculationError(_) => 500,
        }
    }
}

} // verus!
