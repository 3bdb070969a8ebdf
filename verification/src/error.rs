//! The closed error taxonomy of the library, the structured error body the
//! remote side returns, and the classification of a response by HTTP status.

use vstd::prelude::*;

verus! {

/// Which of the four verification headers a response lacked.
#[derive(Clone, Copy, Debug, PartialEq, Eq, Structural)]
pub enum ResponseHeader {
    Timestamp,
    Nonce,
    Serial,
    Signature,
}

/// Why an inbound response failed verification. Every reason is fatal to
/// the single call: the body must not be trusted.
#[derive(Clone, Copy, Debug, PartialEq, Eq, Structural)]
pub enum VerificationFailure {
    /// A required header was absent.
    MissingHeader(ResponseHeader),
    /// The timestamp header was not a decimal number in range.
    InvalidTimestamp,
    /// The timestamp lies more than the replay window away from now.
    TimestampExpired,
    /// No trusted certificate matches the serial the response names.
    UnknownSerial,
    /// The signature header is not valid base64.
    MalformedSignature,
    /// The decoded signature does not verify against the trusted key.
    BadSignature,
}

/// The value attached to an error detail: a single string or a list.
#[derive(Debug)]
pub enum WeChatPayApiErrorDetailValue {
    Text(String),
    Array(Vec<String>),
}

/// Where and why a request parameter was rejected.
#[derive(Debug)]
pub struct WeChatPayApiErrorDetail {
    pub field: Option<String>,
    pub value: Option<WeChatPayApiErrorDetailValue>,
    pub issue: Option<String>,
    pub location: Option<String>,
}

/// The structured error body the remote side returns beside a failing
/// HTTP status.
#[derive(Debug)]
pub struct WeChatPayApiError {
    pub code: String,
    pub message: Option<String>,
    pub detail: Option<WeChatPayApiErrorDetail>,
}

/// Every failure the library reports, as a closed union.
#[derive(Debug)]
pub enum WeChatPayError {
    /// Network or transport failure, with a diagnostic.
    NetworkError(String),
    /// Malformed key material or cipher misuse: a configuration fault.
    CryptoError(String),
    /// The response failed verification for the given reason.
    VerifySignatureFail(VerificationFailure),
    /// The remote side rejected the request with a structured error.
    WeChatApiError(Box<WeChatPayApiError>),
    /// The request was durably received but not yet processed; the caller
    /// should resubmit the identical request later.
    Accepted,
    /// The response matched no known shape or status.
    Unknown(String),
    /// A local condition that should never happen in a sound deployment.
    InternalServerError(String),
}

/// The statuses whose body is read as a structured error.
pub open spec fn is_api_error_status(status: u16) -> bool {
    (400 <= status <= 501) || status == 503
}

/// Classifies one response by HTTP status, given the outcome of parsing
/// the body as the expected type and as a structured error.
///
/// 200 yields the parsed body; a 200 body that parses as neither the
/// expected type nor an error is unclassified. 204 yields no body. 202
/// means durably accepted but pending. 400 through 501 and 503 carry a
/// structured error. Every other status is unclassified.
pub fn parse_response<T>(
    status: u16,
    body: Option<T>,
    api_error: Option<WeChatPayApiError>,
) -> (r: Result<Option<T>, WeChatPayError>)
    ensures
        status == 200 && body is Some ==> r == Ok::<Option<T>, WeChatPayError>(body),
        api_error matches Some(e) ==> ((status == 200 && body is None) ==> (r matches Err(
            WeChatPayError::WeChatApiError(b),
        ) && *b == e)),
        status == 200 && body is None && api_error is None ==> (r matches Err(
            WeChatPayError::Unknown(m),
        ) && m@ == "Failed to parse response"@),
        status == 204 ==> r == Ok::<Option<T>, WeChatPayError>(None::<T>),
        status == 202 ==> r == Err::<Option<T>, WeChatPayError>(WeChatPayError::Accepted),
        api_error matches Some(e) ==> (is_api_error_status(status) ==> (r matches Err(
            WeChatPayError::WeChatApiError(b),
        ) && *b == e)),
        is_api_error_status(status) && api_error is None ==> (r matches Err(
            WeChatPayError::Unknown(m),
        ) && m@ == "Failed to parse response"@),
        status != 200 && status != 202 && status != 204 && !is_api_error_status(status) ==> (r
            matches Err(WeChatPayError::Unknown(m)) && m@ == "Unknown response status code"@),
{
    if status == 200 {
        match body {
            Some(t) => Ok(Some(t)),
            None => match api_error {
                Some(e) => Err(WeChatPayError::WeChatApiError(Box::new(e))),
                None => Err(WeChatPayError::Unknown(String::from_str("Failed to parse response"))),
            },
        }
    } else if status == 204 {
        Ok(None)
    } else if status == 202 {
        Err(WeChatPayError::Accepted)
    } else if (400 <= status && status <= 501) || status == 503 {
        match api_error {
            Some(e) => Err(WeChatPayError::WeChatApiError(Box::new(e))),
            None => Err(WeChatPayError::Unknown(String::from_str("Failed to parse response"))),
        }
    } else {
        Err(WeChatPayError::Unknown(String::from_str("Unknown response status code")))
    }
}

} // verus!
