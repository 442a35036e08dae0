//! The errors of the accounts service, and what a client is told about each.

use vstd::prelude::*;
use crate::text::{concat2, string_of};

verus! {

/// An error of the accounts service.
#[derive(Debug, Clone, PartialEq, Eq)]
pub enum AppError {
    NotFound(String),
    Unauthorized,
    Forbidden,
    BadRequest(String),
    Conflict(String),
    PaymentError(String),
    KycRequired,
    InsufficientFunds,
    MultiSigRequired,
    FraudDetected,
    /// An internal failure; the text is for the logs, never for the client.
    Internal(String),
    /// A database failure; the text is for the logs, never for the client.
    Database(String),
}

pub type AppResult<T> = Result<T, AppError>;

/// The HTTP status of each error.
pub open spec fn status_code_spec(e: AppError) -> u16 {
    match e {
        AppError::NotFound(_) => 404,
        AppError::Unauthorized => 401,
        AppError::Forbidden => 403,
        AppError::BadRequest(_) => 400,
        AppError::Conflict(_) => 409,
        AppError::PaymentError(_) => 502,
        AppError::KycRequired => 403,
        AppError::InsufficientFunds => 422,
        AppError::MultiSigRequired => 403,
        AppError::FraudDetected => 403,
        AppError::Internal(_) => 500,
        AppError::Database(_) => 500,
    }
}

/// The message a client receives (under `"error"`) for each error.
pub open spec fn client_message_spec(e: AppError) -> Seq<char> {
    match e {
        AppError::NotFound(m) => m@,
        AppError::Unauthorized => "Unauthorized"@,
        AppError::Forbidden => "Forbidden"@,
        AppError::BadRequest(m) => m@,
        AppError::Conflict(m) => m@,
        AppError::PaymentError(m) => m@,
        AppError::KycRequired => "KYC verification required"@,
        AppError::InsufficientFunds => "Insufficient funds"@,
        AppError::MultiSigRequired => "Multi-sig approval required"@,
        AppError::FraudDetected => "Transaction blocked by Fraud Shield"@,
        AppError::Internal(_) => "Internal server error"@,
        AppError::Database(_) => "Database error"@,
    }
}

/// The one-line description of each error.
pub open spec fn error_text_spec(e: AppError) -> Seq<char> {
    match e {
        AppError::NotFound(m) => "Not found: "@ + m@,
        AppError::Unauthorized => "Unauthorized"@,
        AppError::Forbidden => "Forbidden"@,
        AppError::BadRequest(m) => "Bad request: "@ + m@,
        AppError::Conflict(m) => "Conflict: "@ + m@,
        AppError::PaymentError(m) => "Payment error: "@ + m@,
        AppError::KycRequired => "KYC required"@,
        AppError::InsufficientFunds => "Insufficient funds"@,
        AppError::MultiSigRequired => "Multi-sig approval required"@,
        AppError::FraudDetected => "Fraud detected"@,
        AppError::Internal(_) => "Internal error"@,
        AppError::Database(_) => "Database error"@,
    }
}

impl AppError {
    /// The HTTP status and the client message of the error. Internal and database
    /// failures never show their details.
    pub fn status_and_message(&self) -> (r: (u16, String))
        ensures
            r.0 == status_code_spec(*self),
            r.1@ == client_message_spec(*self),
    {
        match self {
            AppError::NotFound(m) => (404, m.clone()),
            AppError::Unauthorized => (401, string_of("Unauthorized")),
            AppError::Forbidden => (403, string_of("Forbidden")),
            AppError::BadRequest(m) => (400, m.clone()),
            AppError::Conflict(m) => (409, m.clone()),
            AppError::PaymentError(m) => (502, m.clone()),
            AppError::KycRequired => (403, string_of("KYC verification required")),
            AppError::InsufficientFunds => (422, string_of("Insufficient funds")),
            AppError::MultiSigRequired => (403, string_of("Multi-sig approval required")),
            AppError::FraudDetected => (403, string_of("Transaction blocked by Fraud Shield")),
            AppError::Internal(_) => (500, string_of("Internal server error")),
            AppError::Database(_) => (500, string_of("Database error")),
        }
    }

    /// The one-line description of the error (what `to_string` gives).
    pub fn to_string(&self) -> (r: String)
        ensures
            r@ == error_text_spec(*self),
    {
        match self {
            AppError::NotFound(m) => concat2("Not found: ", m.as_str()),
            AppError::Unauthorized => string_of("Unauthorized"),
            AppError::Forbidden => string_of("Forbidden"),
            AppError::BadRequest(m) => concat2("Bad request: ", m.as_str()),
            AppError::Conflict(m) => concat2("Conflict: ", m.as_str()),
            AppError::PaymentError(m) => concat2("Payment error: ", m.as_str()),
            AppError::KycRequired => string_of("KYC required"),
            AppError::InsufficientFunds => string_of("Insufficient funds"),
            AppError::MultiSigRequired => string_of("Multi-sig approval required"),
            AppError::FraudDetected => string_of("Fraud detected"),
            AppError::Internal(_) => string_of("Internal error"),
            AppError::Database(_) => string_of("Database error"),
        }
    }
}

/// Internal and database failures never show their details: whatever their log
/// text, the client gets the same status and message.
pub proof fn law_internal_details_hidden(a: String, b: String)
    ensures
        status_code_spec(AppError::Internal(a)) == status_code_spec(AppError::Internal(b)),
        client_message_spec(AppError::Internal(a)) == client_message_spec(AppError::Internal(b)),
        status_code_spec(AppError::Database(a)) == status_code_spec(AppError::Database(b)),
        client_message_spec(AppError::Database(a)) == client_message_spec(AppError::Database(b)),
{
}

/// A `BadRequest` with the given message.
pub fn bad_request(message: &str) -> (r: AppError)
    ensures
        r matches AppError::BadRequest(m) && m@ == message@,
{
    AppError::BadRequest(string_of(message))
}

/// A `Conflict` with the given message.
pub fn conflict(message: &str) -> (r: AppError)
    ensures
        r matches AppError::Conflict(m) && m@ == message@,
{
    AppError::Conflict(string_of(message))
}

/// An `Internal` error with the given log text.
pub fn internal(message: &str) -> (r: AppError)
    ensures
        r matches AppError::Internal(m) && m@ == message@,
{
    AppError::Internal(string_of(message))
}

} // verus!
