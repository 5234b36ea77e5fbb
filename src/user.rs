//! The user resource and the values that travel with it.

use vstd::prelude::*;

use crate::timestamp::Timestamp;

verus! {

/// Request payload for creating a user.
#[derive(Debug, Clone)]
pub struct CreateUser {
    pub name: String,
    pub age: i32,
}

/// Request payload for updating a user; absent fields stay as they are.
#[derive(Debug, Clone)]
pub struct UpdateUser {
    pub name: Option<String>,
    pub age: Option<i32>,
}

/// A stored user.
#[derive(Debug, Clone)]
pub struct User {
    pub id: i32,
    pub name: String,
    pub age: i32,
    pub created_at: Timestamp,
}

/// What a `User` holds, as mathematical values.
pub struct UserView {
    pub id: i32,
    pub name: Seq<char>,
    pub age: i32,
    pub created_at: Timestamp,
}

impl View for User {
    type V = UserView;

    open spec fn view(&self) -> UserView {
        UserView { id: self.id, name: self.name@, age: self.age, created_at: self.created_at }
    }
}

/// The views of a sequence of users.
pub open spec fn users_view(users: Seq<User>) -> Seq<UserView> {
    users.map_values(|u: User| u@)
}

impl User {
    pub fn new(id: i32, name: String, age: i32, created_at: Timestamp) -> (r: User)
        ensures
            r@ == (UserView { id, name: name@, age, created_at }),
    {
        User { id, name, age, created_at }
    }

    /// A copy of this user.
    pub fn duplicate(&self) -> (r: User)
        ensures
            r@ == self@,
    {
        User { id: self.id, name: self.name.clone(), age: self.age, created_at: self.created_at }
    }
}

/// One failed validation rule.
#[derive(Debug, Clone)]
pub struct ValidationError {
    /// What is wrong.
    pub message: String,
    /// The field at fault, if the failure concerns one field.
    pub field: Option<String>,
}

/// What a `ValidationError` holds, as mathematical values.
pub struct ValidationErrorView {
    pub message: Seq<char>,
    pub field: Option<Seq<char>>,
}

impl View for ValidationError {
    type V = ValidationErrorView;

    open spec fn view(&self) -> ValidationErrorView {
        ValidationErrorView {
            message: self.message@,
            field: match self.field {
                Some(f) => Some(f@),
                None => None,
            },
        }
    }
}

/// The views of a sequence of validation errors.
pub open spec fn errors_view(errors: Seq<ValidationError>) -> Seq<ValidationErrorView> {
    errors.map_values(|e: ValidationError| e@)
}

/// Response body listing validation errors.
#[derive(Debug, Clone)]
pub struct ValidationErrorResponse {
    pub errors: Vec<ValidationError>,
}

/// Response body carrying a message.
#[derive(Debug, Clone)]
pub struct ApiResponse {
    pub message: String,
}

/// Listing parameters: the token of the previous page and the page size.
#[derive(Debug, Clone)]
pub struct PaginationParams {
    pub next_token: Option<String>,
    pub limit: Option<i32>,
}

/// One page of users.
#[derive(Debug, Clone)]
pub struct PaginatedUsersResponse {
    /// The users of this page, in listing order.
    pub users: Vec<User>,
    /// The token of the next page, if there is one.
    pub next_token: Option<String>,
    /// Whether another page follows.
    pub has_more: bool,
    /// Number of users on this page.
    pub count: usize,
}

/// Failures of user operations.
#[derive(Debug, Clone)]
pub enum UserError {
    /// The request broke validation rules.
    ValidationError(Vec<ValidationError>),
    /// No user has the requested id.
    NotFound,
    /// The record store failed.
    DatabaseError(String),
    /// The continuation token is not one this service issued.
    InvalidToken,
}

/// The one-line description of `e`.
pub open spec fn error_text(e: UserError) -> Seq<char> {
    match e {
        UserError::ValidationError(_) => "Validation failed"@,
        UserError::NotFound => "User not found"@,
        UserError::DatabaseError(cause) => "Database error: "@ + cause@,
        UserError::InvalidToken => "Invalid pagination token"@,
    }
}

impl UserError {
    /// A one-line description.
    pub fn message(&self) -> (r: String)
        ensures
            r@ == error_text(*self),
    {
        match self {
            UserError::ValidationError(_) => String::from_str("Validation failed"),
            UserError::NotFound => String::from_str("User not found"),
            UserError::DatabaseError(cause) => String::from_str("Database error: ").concat(
                cause.as_str(),
            ),
            UserError::InvalidToken => String::from_str("Invalid pagination token"),
        }
    }
}

} // verus!
