use vstd::prelude::*;

verus! {

#[verifier::external_type_specification]
#[verifier::external_body]
pub struct ExReqwestError(reqwest::Error);

#[verifier::external_type_specification]
#[verifier::external_body]
pub struct ExJsonError(serde_json::Error);

/// Every way a call to the provider can fail.
#[derive(Debug)]
pub enum ClientError {
    /// The transport failed for a reason other than a timeout.
    Reqwest(reqwest::Error),
    /// A successful response body did not decode into the expected payload.
    Serde(serde_json::Error),
    /// The client was configured wrongly: a missing field or a bad endpoint.
    Configuration(String),
    /// The provider answered with a non-success status other than 401.
    ServerResponse { status_code: u16, message: String },
    /// The provider answered 401; the raw body is kept.
    Authentication(String),
    /// The transport gave up after the configured timeout, in whole seconds.
    Timeout(u64),
}

/// Why a phone number was rejected.
#[derive(Debug, Clone)]
pub struct ParseError(pub String);

impl ParseError {
    /// The human-readable reason.
    pub fn message(&self) -> (r: &str)
        ensures
            r@ == self.0@,
    {
        self.0.as_str()
    }
}

} // verus!
