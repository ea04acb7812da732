//! The service's error type, the HTTP status and machine code of each
//! error, and the text a client is shown.

use vstd::prelude::*;
use crate::text::{int_decimal, push_i64_decimal, push_str};

verus! {

/// Every failure a request can end in.
#[derive(Debug, Clone, PartialEq, Eq)]
pub enum AppError {
    /// Login with a wrong email or password.
    InvalidCredentials(String),
    /// The access token is invalid or expired.
    InvalidToken,
    /// The user lacks a required role.
    Forbidden,
    /// No (usable) credentials were given.
    Unauthorized,
    /// A named resource does not exist.
    NotFound(String),
    /// A named resource already exists.
    Conflict(String),
    /// The request failed validation.
    Validation(String),
    /// Not enough stock of a product.
    InsufficientStock { product_id: i32, available: i32, requested: i32 },
    /// The database failed; the text is the driver's description.
    Database(String),
    /// An unexpected internal failure; the text describes it.
    Internal(String),
    /// A dependency is unavailable.
    ServiceUnavailable(String),
}

/// The HTTP status of an error.
pub open spec fn status_code_spec(e: AppError) -> u16 {
    match e {
        AppError::InvalidCredentials(_) => 401,
        AppError::InvalidToken => 401,
        AppError::Forbidden => 403,
        AppError::Unauthorized => 401,
        AppError::NotFound(_) => 404,
        AppError::Conflict(_) => 409,
        AppError::Validation(_) => 422,
        AppError::InsufficientStock { .. } => 422,
        AppError::ServiceUnavailable(_) => 503,
        AppError::Database(_) => 500,
        AppError::Internal(_) => 500,
    }
}

/// The machine-readable code of an error.
pub open spec fn error_code_spec(e: AppError) -> Seq<char> {
    match e {
        AppError::InvalidCredentials(_) => "INVALID_CREDENTIALS"@,
        AppError::InvalidToken => "INVALID_TOKEN"@,
        AppError::Forbidden => "FORBIDDEN"@,
        AppError::Unauthorized => "UNAUTHORIZED"@,
        AppError::NotFound(_) => "NOT_FOUND"@,
        AppError::Conflict(_) => "CONFLICT"@,
        AppError::Validation(_) => "VALIDATION_ERROR"@,
        AppError::InsufficientStock { .. } => "INSUFFICIENT_STOCK"@,
        AppError::Database(_) => "DATABASE_ERROR"@,
        AppError::Internal(_) => "INTERNAL_SERVER_ERROR"@,
        AppError::ServiceUnavailable(_) => "SERVICE_UNAVAILABLE"@,
    }
}

/// The full description of an error.
pub open spec fn display_spec(e: AppError) -> Seq<char> {
    match e {
        AppError::InvalidCredentials(s) => "Invalid credentials: "@ + s@,
        AppError::InvalidToken => "Token is invalid or expired"@,
        AppError::Forbidden => "You are not authorized to perform this action"@,
        AppError::Unauthorized => "Authentication required"@,
        AppError::NotFound(s) => s@ + " not found"@,
        AppError::Conflict(s) => s@ + " already exists"@,
        AppError::Validation(s) => "Validation error: "@ + s@,
        AppError::InsufficientStock { product_id, available, requested } =>
            "Insufficient stock for product "@ + int_decimal(product_id as int) + ": available "@
                + int_decimal(available as int) + ", requested "@ + int_decimal(requested as int),
        AppError::Database(_) => "Database error"@,
        AppError::Internal(_) => "Internal server error"@,
        AppError::ServiceUnavailable(s) => "Service unavailable: "@ + s@,
    }
}

/// Whether an error is the server's fault (an HTTP 5xx status).
pub open spec fn is_server_error_spec(e: AppError) -> bool {
    500 <= status_code_spec(e) < 600
}

/// The message a client is shown: the description, except that the
/// details of database and internal failures are never revealed.
pub open spec fn client_message_spec(e: AppError) -> Seq<char> {
    match e {
        AppError::Database(_) => "An internal error ocurred"@,
        AppError::Internal(_) => "An internal error ocurred"@,
        _ => display_spec(e),
    }
}

impl AppError {
    /// The HTTP status code of the error.
    pub fn status_code(&self) -> (r: u16)
        ensures
            r == status_code_spec(*self),
    {
        match self {
            AppError::InvalidCredentials(_) | AppError::InvalidToken => 401,
            AppError::Forbidden => 403,
            AppError::Unauthorized => 401,
            AppError::NotFound(_) => 404,
            AppError::Conflict(_) => 409,
            AppError::Validation(_) => 422,
            AppError::InsufficientStock { .. } => 422,
            AppError::ServiceUnavailable(_) => 503,
            AppError::Database(_) | AppError::Internal(_) => 500,
        }
    }

    /// The machine-readable error code.
    pub fn error_code(&self) -> (r: &'static str)
        ensures
            r@ == error_code_spec(*self),
    {
        match self {
            AppError::InvalidCredentials(_) => "INVALID_CREDENTIALS",
            AppError::InvalidToken => "INVALID_TOKEN",
            AppError::Forbidden => "FORBIDDEN",
            AppError::Unauthorized => "UNAUTHORIZED",
            AppError::NotFound(_) => "NOT_FOUND",
            AppError::Conflict(_) => "CONFLICT",
            AppError::Validation(_) => "VALIDATION_ERROR",
            AppError::InsufficientStock { .. } => "INSUFFICIENT_STOCK",
            AppError::Database(_) => "DATABASE_ERROR",
            AppError::Internal(_) => "INTERNAL_SERVER_ERROR",
            AppError::ServiceUnavailable(_) => "SERVICE_UNAVAILABLE",
        }
    }

    /// Whether the status is a server error (5xx).
    pub fn is_server_error(&self) -> (r: bool)
        ensures
            r == is_server_error_spec(*self),
    {
        let s = self.status_code();
        500 <= s && s < 600
    }

    /// The full description of the error (its `Display` text).
    pub fn message(&self) -> (r: String)
        ensures
            r@ == display_spec(*self),
    {
        let mut out = String::new();
        match self {
            AppError::InvalidCredentials(s) => {
                push_str(&mut out, "Invalid credentials: ");
                push_str(&mut out, s.as_str());
            },
            AppError::InvalidToken => push_str(&mut out, "Token is invalid or expired"),
            AppError::Forbidden => push_str(&mut out, "You are not authorized to perform this action"),
            AppError::Unauthorized => push_str(&mut out, "Authentication required"),
            AppError::NotFound(s) => {
                push_str(&mut out, s.as_str());
                push_str(&mut out, " not found");
            },
            AppError::Conflict(s) => {
                push_str(&mut out, s.as_str());
                push_str(&mut out, " already exists");
            },
            AppError::Validation(s) => {
                push_str(&mut out, "Validation error: ");
                push_str(&mut out, s.as_str());
            },
            AppError::InsufficientStock { product_id, available, requested } => {
                push_str(&mut out, "Insufficient stock for product ");
                push_i64_decimal(&mut out, *product_id as i64);
                push_str(&mut out, ": available ");
                push_i64_decimal(&mut out, *available as i64);
                push_str(&mut out, ", requested ");
                push_i64_decimal(&mut out, *requested as i64);
            },
            AppError::Database(_) => push_str(&mut out, "Database error"),
            AppError::Internal(_) => push_str(&mut out, "Internal server error"),
            AppError::ServiceUnavailable(s) => {
                push_str(&mut out, "Service unavailable: ");
                push_str(&mut out, s.as_str());
            },
        }
        proof {
            assert(out@ =~= display_spec(*self));
        }
        out
    }

    /// The message shown to the client in the error response.
    pub fn client_message(&self) -> (r: String)
        ensures
            r@ == client_message_spec(*self),
    {
        match self {
            AppError::Database(_) | AppError::Internal(_) => {
                let mut out = String::new();
                push_str(&mut out, "An internal error ocurred");
                assert(out@ =~= client_message_spec(*self));
                out
            },
            _ => self.message(),
        }
    }
}

/// The outcome of a fallible request step.
pub type AppResult<T> = Result<T, AppError>;

} // verus!

verus! {

/// The kinds of errors: wrong or missing credentials are HTTP 401, a
/// missing role 403, a missing record 404, a duplicate 409, invalid
/// input 422, an unavailable dependency 503, database and internal
/// failures 500. The server's own failures are exactly the database,
/// internal and unavailable-dependency errors, and what a client is
/// shown of a database or internal failure does not depend on its
/// details.
pub proof fn lemma_error_classes(e: AppError, d1: String, d2: String)
    ensures
        status_code_spec(e) == 401 <==> (e is InvalidCredentials || e is InvalidToken || e is Unauthorized),
        status_code_spec(e) == 403 <==> e is Forbidden,
        status_code_spec(e) == 404 <==> e is NotFound,
        status_code_spec(e) == 409 <==> e is Conflict,
        status_code_spec(e) == 422 <==> (e is Validation || e is InsufficientStock),
        status_code_spec(e) == 500 <==> (e is Database || e is Internal),
        status_code_spec(e) == 503 <==> e is ServiceUnavailable,
        is_server_error_spec(e) <==> (e is Database || e is Internal || e is ServiceUnavailable),
        client_message_spec(AppError::Database(d1)) == client_message_spec(AppError::Internal(d2)),
        client_message_spec(AppError::Database(d1)) == client_message_spec(AppError::Database(d2)),
        !(e is Database || e is Internal) ==> client_message_spec(e) == display_spec(e),
        client_message_spec(AppError::NotFound(d1)) == d1@ + " not found"@,
        client_message_spec(AppError::Validation(d1)) == "Validation error: "@ + d1@,
{
}

} // verus!
