//! The decisions of the user services around their store calls: what is
//! checked before a write, what is written, and what a store answer means.

use vstd::prelude::*;

use crate::rules::{reports, ValidationResult};
use crate::text::{signed_decimal, to_signed_decimal, trim, trimmed};
use crate::user::{
    errors_view, ApiResponse, CreateUser, UpdateUser, User, UserError, ValidationErrorView,
};
use crate::validation::{create_errors, update_errors, validate_create_user, validate_update_user};

verus! {

/// `r` is the outcome of a check whose errors are `expected`: success when
/// there are none, else a validation error listing them.
pub open spec fn checked(r: Result<(), UserError>, expected: Seq<ValidationErrorView>) -> bool {
    match r {
        Ok(_) => expected.len() == 0,
        Err(UserError::ValidationError(es)) => expected.len() > 0 && errors_view(es@) == expected,
        Err(_) => false,
    }
}

fn as_user_error(r: ValidationResult) -> (out: Result<(), UserError>)
    ensures
        forall|expected| reports(r, expected) ==> checked(out, expected),
{
    match r {
        Ok(_) => Ok(()),
        Err(es) => Err(UserError::ValidationError(es)),
    }
}

/// Creating users.
pub struct CreateUserService;

impl CreateUserService {
    /// The check before a user is stored: the request must pass validation.
    pub fn check(user_data: &CreateUser) -> (r: Result<(), UserError>)
        ensures
            checked(r, create_errors(*user_data)),
    {
        as_user_error(validate_create_user(user_data))
    }

    /// The name as stored: the requested one without surrounding white space.
    pub fn stored_name(user_data: &CreateUser) -> (r: String)
        ensures
            trimmed(user_data.name@, r@),
    {
        String::from_str(trim(user_data.name.as_str()))
    }
}

/// Updating users.
pub struct UpdateUserService;

impl UpdateUserService {
    /// The check before an update is applied: it must pass validation.
    pub fn check(user_data: &UpdateUser) -> (r: Result<(), UserError>)
        ensures
            checked(r, update_errors(*user_data)),
    {
        as_user_error(validate_update_user(user_data))
    }

    /// The name and age that an update leaves on `existing`: each field the
    /// update sets (a name without surrounding white space), else the
    /// existing one.
    pub fn merged_fields(user_data: &UpdateUser, existing: &User) -> (r: (String, i32))
        ensures
            match user_data.name {
                Some(n) => trimmed(n@, r.0@),
                None => r.0@ == existing.name@,
            },
            r.1 == match user_data.age {
                Some(a) => a,
                None => existing.age,
            },
    {
        let name = match &user_data.name {
            Some(n) => String::from_str(trim(n.as_str())),
            None => existing.name.clone(),
        };
        let age = match user_data.age {
            Some(a) => a,
            None => existing.age,
        };
        (name, age)
    }
}

/// Deleting users.
pub struct DeleteUserService;

impl DeleteUserService {
    /// What a deletion answers, given whether the store removed a row.
    pub fn outcome(id: i32, deleted: bool) -> (r: Result<ApiResponse, UserError>)
        ensures
            deleted ==> (r matches Ok(resp) && resp.message@ == "User with id "@ + signed_decimal(
                id as int,
            ) + " deleted successfully"@),
            !deleted ==> (r matches Err(e) && e is NotFound),
    {
        if deleted {
            let message = String::from_str("User with id ").concat(
                to_signed_decimal(id as i64).as_str(),
            ).concat(" deleted successfully");
            Ok(ApiResponse { message })
        } else {
            Err(UserError::NotFound)
        }
    }
}

/// Small queries about users.
pub struct UserUtilsService;

impl UserUtilsService {
    /// The name of the user the store found, if it found one.
    pub fn name_of(found: Option<User>) -> (r: Result<String, UserError>)
        ensures
            match found {
                Some(u) => r matches Ok(n) && n@ == u.name@,
                None => r matches Err(e) && e is NotFound,
            },
    {
        match found {
            Some(user) => Ok(user.name),
            None => Err(UserError::NotFound),
        }
    }
}

/// The user operations, each answering errors in its own way.
#[derive(Debug, Clone, Copy, PartialEq, Eq, Structural)]
pub enum UserOperation {
    Create,
    List,
    Get,
    Update,
    Delete,
}

/// The HTTP status that answers `e` in `op`: a rejected request is 400, a
/// missing user 404 where the operation names one, anything else 500.
pub open spec fn status_of(op: UserOperation, e: UserError) -> u16 {
    match e {
        UserError::ValidationError(_) => if op == UserOperation::Create || op
            == UserOperation::Update {
            400
        } else {
            500
        },
        UserError::InvalidToken => if op == UserOperation::List {
            400
        } else {
            500
        },
        UserError::NotFound => if op == UserOperation::Get || op == UserOperation::Update || op
            == UserOperation::Delete {
            404
        } else {
            500
        },
        UserError::DatabaseError(_) => 500,
    }
}

impl UserError {
    /// The HTTP status that answers this error in `op`.
    pub fn status_in(&self, op: UserOperation) -> (r: u16)
        ensures
            r == status_of(op, *self),
    {
        match self {
            UserError::ValidationError(_) => match op {
                UserOperation::Create | UserOperation::Update => 400,
                _ => 500,
            },
            UserError::InvalidToken => match op {
                UserOperation::List => 400,
                _ => 500,
            },
            UserError::NotFound => match op {
                UserOperation::Get | UserOperation::Update | UserOperation::Delete => 404,
                _ => 500,
            },
            UserError::DatabaseError(_) => 500,
        }
    }
}

} // verus!
