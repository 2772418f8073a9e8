//! The failures an operation can end in.

use vstd::prelude::*;

verus! {

/// What went wrong in a checked integer operation.
#[derive(Clone, Copy, Debug, PartialEq, Eq, Structural)]
pub enum ArithmeticError {
    /// The exact result is above the largest value of the type.
    Overflow,
    /// The exact result is below zero.
    Underflow,
    /// The divisor is zero.
    DivideByZero,
}

/// Why an operation was refused. Every error is final for the call that
/// returned it: the state it was given is left as it was.
#[derive(Debug, PartialEq, Eq)]
pub enum ContractError {
    /// A checked addition, subtraction, multiplication or division failed.
    Arithmetic(ArithmeticError),
    /// A piece of state that the operation reads has not been written yet.
    NotFound { kind: String },
    /// The expected asset is attached, but in another amount than announced.
    InsufficientFunds { denom: String, amount: u128, exp_amount: u128 },
    /// The expected asset is not among the attached funds.
    MissingFunds { denom: String },
    /// The sender may not act, or may not act for the named account.
    NotAuthorized { reason: String },
    /// An input was malformed in a way no other variant describes.
    ValidationError { reason: String },
    /// The swap would pay out less than the caller's lower bound.
    TooMuchSlippage {},
}

/// A `ContractError` as contracts see it: texts by their characters.
pub enum ContractErrorView {
    Arithmetic(ArithmeticError),
    NotFound { kind: Seq<char> },
    InsufficientFunds { denom: Seq<char>, amount: u128, exp_amount: u128 },
    MissingFunds { denom: Seq<char> },
    NotAuthorized { reason: Seq<char> },
    ValidationError { reason: Seq<char> },
    TooMuchSlippage,
}

impl View for ContractError {
    type V = ContractErrorView;

    open spec fn view(&self) -> ContractErrorView {
        match self {
            ContractError::Arithmetic(e) => ContractErrorView::Arithmetic(*e),
            ContractError::NotFound { kind } => ContractErrorView::NotFound { kind: kind@ },
            ContractError::InsufficientFunds {
                denom,
                amount,
                exp_amount,
            } => ContractErrorView::InsufficientFunds {
                denom: denom@,
                amount: *amount,
                exp_amount: *exp_amount,
            },
            ContractError::MissingFunds { denom } => ContractErrorView::MissingFunds {
                denom: denom@,
            },
            ContractError::NotAuthorized { reason } => ContractErrorView::NotAuthorized {
                reason: reason@,
            },
            ContractError::ValidationError { reason } => ContractErrorView::ValidationError {
                reason: reason@,
            },
            ContractError::TooMuchSlippage {  } => ContractErrorView::TooMuchSlippage,
        }
    }
}

/// Lifts the outcome of a checked integer operation into a `ContractError`
/// result.
pub open spec fn lift<T>(r: Result<T, ArithmeticError>) -> Result<T, ContractError> {
    match r {
        Ok(v) => Ok(v),
        Err(e) => Err(ContractError::Arithmetic(e)),
    }
}

} // verus!
