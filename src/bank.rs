//! Errors of the bank accounts kept for users, and the user check that
//! opening an account starts with.

use vstd::prelude::*;

use crate::user::{error_text, UserError};

verus! {

/// Failures of bank operations.
#[derive(Debug, Clone)]
pub enum BankError {
    /// No user has the given id.
    UserNotFound,
    /// The user service failed.
    UserServiceError(UserError),
    /// The account holds too little for the operation.
    InsufficientFunds,
    /// No account has the given id.
    AccountNotFound,
}

impl BankError {
    /// A one-line description.
    pub fn message(&self) -> (r: String)
        ensures
            self is UserNotFound ==> r@ == "User not found"@,
            self is InsufficientFunds ==> r@ == "Insufficient funds"@,
            self is AccountNotFound ==> r@ == "Account not found"@,
            self matches BankError::UserServiceError(e) ==> r@ == "User service error: "@
                + error_text(*e),
    {
        match self {
            BankError::UserNotFound => String::from_str("User not found"),
            BankError::UserServiceError(e) => {
                let inner = e.message();
                String::from_str("User service error: ").concat(inner.as_str())
            },
            BankError::InsufficientFunds => String::from_str("Insufficient funds"),
            BankError::AccountNotFound => String::from_str("Account not found"),
        }
    }
}

impl BankError {
    /// The bank's reading of a user service failure: a missing user is
    /// `UserNotFound`, any other failure is passed on.
    pub fn from_user_error(e: UserError) -> (r: BankError)
        ensures
            e is NotFound ==> r is UserNotFound,
            !(e is NotFound) ==> r == BankError::UserServiceError(e),
    {
        match e {
            UserError::NotFound => BankError::UserNotFound,
            other => BankError::UserServiceError(other),
        }
    }
}

/// Whether an account may be opened for a user, given the user service's
/// answer to "does the user exist": yes when it does, `UserNotFound` when it
/// does not, and the service's own failure passed on.
pub fn require_user(lookup: Result<bool, UserError>) -> (r: Result<(), BankError>)
    ensures
        lookup == Ok::<bool, UserError>(true) ==> r is Ok,
        lookup == Ok::<bool, UserError>(false) ==> (r matches Err(e) && e is UserNotFound),
        lookup matches Err(e) ==> r == Err::<(), BankError>(BankError::UserServiceError(e)),
{
    match lookup {
        Ok(true) => Ok(()),
        Ok(false) => Err(BankError::UserNotFound),
        Err(e) => Err(BankError::UserServiceError(e)),
    }
}

} // verus!
