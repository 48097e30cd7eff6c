//! The bodies of requests and responses.

use vstd::prelude::*;

verus! {

#[derive(Debug)]
pub struct TransferRequest {
    pub to_address: String,
}

#[derive(Debug)]
pub struct TransferResponse {
    pub deploy_id: Option<String>,
}

#[derive(Debug)]
pub struct BalanceResponse {
    pub balance: String,
}

#[derive(Debug)]
pub struct ErrorResponse {
    pub error: String,
    pub details: Option<String>,
    pub timestamp: String,
}

/// The current time in UTC as an RFC 3339 text, by `chrono::Utc::now` and
/// `chrono::DateTime::to_rfc3339`. Nothing is claimed of the text: it depends
/// on the clock.
#[verifier::external_body]
fn current_timestamp() -> (r: String) {
    chrono::Utc::now().to_rfc3339()
}

impl ErrorResponse {
    /// Whether a response carries this error text and these details.
    pub open spec fn carries(&self, error: Seq<char>, details: Option<Seq<char>>) -> bool {
        &&& self.error@ == error
        &&& match details {
            None => self.details is None,
            Some(text) => self.details is Some && self.details->Some_0@ == text,
        }
    }

    /// An error response stamped with the given time.
    pub fn at(error: String, details: Option<String>, timestamp: String) -> (r: ErrorResponse)
        ensures
            r.error == error,
            r.details == details,
            r.timestamp == timestamp,
    {
        ErrorResponse { error, details, timestamp }
    }

    /// An error response stamped with the time of the call.
    pub fn new(error: String, details: Option<String>) -> (r: ErrorResponse)
        ensures
            r.error == error,
            r.details == details,
    {
        ErrorResponse::at(error, details, current_timestamp())
    }

    pub fn validation_error(message: &str) -> (r: ErrorResponse)
        ensures
            r.carries("Validation Error"@, Some(message@)),
    {
        ErrorResponse::new("Validation Error".to_owned(), Some(message.to_owned()))
    }

    pub fn internal_error(message: &str) -> (r: ErrorResponse)
        ensures
            r.carries("Internal Server Error"@, Some(message@)),
    {
        ErrorResponse::new("Internal Server Error".to_owned(), Some(message.to_owned()))
    }
}

} // verus!
