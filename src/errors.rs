use vstd::prelude::*;

use crate::text::{decimal, decimal_text};

verus! {

/// The failures that the service reports to its callers.
#[derive(Debug)]
pub enum CustomError {
    /// The primary store failed.
    MongoDbError { message: String },
    /// The cache store failed: cache, rate counters and pub/sub alike.
    RedisError { message: String },
    /// A record or an image is absent, or an id cannot name one.
    NotFound { message: String },
    /// Data from a store had an unexpected shape.
    InternalError,
    /// The client made more requests in the current minute than permitted.
    TooManyRequests { actual_count: u64, permitted_count: u64 },
}

/// A `CustomError` with its texts as sequences.
pub enum ErrorView {
    MongoDb(Seq<char>),
    Redis(Seq<char>),
    NotFound(Seq<char>),
    Internal,
    TooManyRequests(u64, u64),
}

impl View for CustomError {
    type V = ErrorView;

    open spec fn view(&self) -> ErrorView {
        match self {
            CustomError::MongoDbError { message } => ErrorView::MongoDb(message@),
            CustomError::RedisError { message } => ErrorView::Redis(message@),
            CustomError::NotFound { message } => ErrorView::NotFound(message@),
            CustomError::InternalError => ErrorView::Internal,
            CustomError::TooManyRequests { actual_count, permitted_count } => {
                ErrorView::TooManyRequests(*actual_count, *permitted_count)
            },
        }
    }
}

/// The short name of the kind of an error, as shown to clients.
pub open spec fn error_name(e: ErrorView) -> Seq<char> {
    match e {
        ErrorView::MongoDb(_) => "MongoDB error"@,
        ErrorView::Redis(_) => "Redis error"@,
        ErrorView::NotFound(_) => "Resource not found"@,
        ErrorView::Internal => "Internal error"@,
        ErrorView::TooManyRequests(_, _) => "Too many requests"@,
    }
}

/// The HTTP status that an error maps to.
pub open spec fn error_status(e: ErrorView) -> u16 {
    match e {
        ErrorView::NotFound(_) => 404,
        ErrorView::TooManyRequests(_, _) => 429,
        _ => 500,
    }
}

/// The human-readable message of an error.
pub open spec fn error_message(e: ErrorView) -> Seq<char> {
    match e {
        ErrorView::MongoDb(m) => m,
        ErrorView::Redis(m) => m,
        ErrorView::NotFound(m) => m,
        ErrorView::Internal => "InternalError"@,
        ErrorView::TooManyRequests(actual, permitted) => "Actual requests count: "@ + decimal(
            actual as nat,
        ) + ". Permitted requests count: "@ + decimal(permitted as nat),
    }
}

impl CustomError {
    /// The short name of the kind of this error.
    pub fn name(&self) -> (r: String)
        ensures
            r@ == error_name(self@),
    {
        let name = match self {
            CustomError::MongoDbError { .. } => "MongoDB error",
            CustomError::RedisError { .. } => "Redis error",
            CustomError::NotFound { .. } => "Resource not found",
            CustomError::InternalError => "Internal error",
            CustomError::TooManyRequests { .. } => "Too many requests",
        };
        String::from_str(name)
    }

    /// The HTTP status code of this error: 404 when something is absent, 429
    /// when throttled, 500 otherwise.
    pub fn status_code(&self) -> (r: u16)
        ensures
            r == error_status(self@),
    {
        match self {
            CustomError::NotFound { .. } => 404,
            CustomError::TooManyRequests { .. } => 429,
            _ => 500,
        }
    }

    /// The message of this error.
    pub fn message(&self) -> (r: String)
        ensures
            r@ == error_message(self@),
    {
        match self {
            CustomError::MongoDbError { message } => message.clone(),
            CustomError::RedisError { message } => message.clone(),
            CustomError::NotFound { message } => message.clone(),
            CustomError::InternalError => String::from_str("InternalError"),
            CustomError::TooManyRequests { actual_count, permitted_count } => {
                let mut r = String::from_str("Actual requests count: ");
                let actual = decimal_text(*actual_count);
                r.append(actual.as_str());
                r.append(". Permitted requests count: ");
                let permitted = decimal_text(*permitted_count);
                r.append(permitted.as_str());
                r
            },
        }
    }
}

} // verus!
