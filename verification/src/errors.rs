use vstd::prelude::*;
use vstd::string::StringExecFns;

verus! {

/// `reqwest::Error`, carried through as an opaque value.
#[verifier::external_type_specification]
#[verifier::external_body]
pub struct ExTransportError(reqwest::Error);

/// `reqwest::StatusCode`, the status line's number as the transport hands it over.
#[verifier::external_type_specification]
#[verifier::external_body]
pub struct ExStatusCode(reqwest::StatusCode);

/// The number of the status, such as 200 or 404.
pub uninterp spec fn status_number(status: reqwest::StatusCode) -> u16;

/// The status as `reqwest` prints it: the number and the usual reason phrase.
pub uninterp spec fn status_text(status: reqwest::StatusCode) -> Seq<char>;

/// The transport failure as `reqwest` prints it.
pub uninterp spec fn transport_error_text(error: reqwest::Error) -> Seq<char>;

/// The parse failure as `serde_json` prints it.
pub uninterp spec fn json_error_text(error: serde_json::Error) -> Seq<char>;

/// Whether the status is one of success: 200 to 299.
pub open spec fn reports_success(status: reqwest::StatusCode) -> bool {
    200 <= status_number(status) < 300
}

/// `StatusCode::is_success`: true exactly for the numbers from 200 to 299.
pub assume_specification[ reqwest::StatusCode::is_success ](status: &reqwest::StatusCode) -> (yes:
    bool)
    ensures
        yes == (200 <= status_number(*status) < 300),
;

/// `Display` of `StatusCode`, through `to_string`: the text depends on the
/// status alone.
#[verifier::external_body]
fn print_status(status: &reqwest::StatusCode) -> (text: String)
    ensures
        text@ == status_text(*status),
{
    status.to_string()
}

/// `Display` of `reqwest::Error`, through `to_string`: the text depends on the
/// error alone.
#[verifier::external_body]
fn print_transport_error(error: &reqwest::Error) -> (text: String)
    ensures
        text@ == transport_error_text(*error),
{
    error.to_string()
}

/// `Display` of `serde_json::Error`, through `to_string`: the text depends on
/// the error alone.
#[verifier::external_body]
fn print_json_error(error: &serde_json::Error) -> (text: String)
    ensures
        text@ == json_error_text(*error),
{
    error.to_string()
}

/// Why a response body could not be read as the record that was expected.
#[derive(Debug)]
pub enum DecodeError {
    /// The body is not one JSON document.
    Malformed(serde_json::Error),
    /// The body is JSON, but not of the shape of the record.
    Mismatch,
}

impl DecodeError {
    /// The failure in words.
    pub open spec fn description(&self) -> Seq<char> {
        match self {
            DecodeError::Malformed(error) => json_error_text(*error),
            DecodeError::Mismatch => "response does not match the expected schema"@,
        }
    }

    /// The failure in words.
    pub fn describe(&self) -> (text: String)
        ensures
            text@ == self.description(),
    {
        match self {
            DecodeError::Malformed(error) => print_json_error(error),
            DecodeError::Mismatch => "response does not match the expected schema".to_owned(),
        }
    }
}

/// Why a call to the service failed.
#[derive(Debug)]
pub enum APIError {
    /// The service answered with this status.
    Http(reqwest::StatusCode),
    /// No answer came: the transport failed.
    Reqwest(reqwest::Error),
    /// The answer was one of success, but its body could not be read; the body
    /// is kept as it came.
    Serialization(DecodeError, String),
    /// The service answered with a status other than success; the body is kept
    /// as it came.
    BadRequest(reqwest::StatusCode, String),
}

impl APIError {
    /// The failure in words.
    pub open spec fn description(&self) -> Seq<char> {
        match self {
            APIError::Http(status) => "HTTP error with status code: "@ + status_text(*status),
            APIError::Reqwest(error) => "Request error: "@ + transport_error_text(*error),
            APIError::Serialization(error, _) => "Serialization error: "@ + error.description(),
            APIError::BadRequest(status, body) => "Bad request ("@ + status_text(*status) + "): "@
                + body@,
        }
    }

    /// The failure in words.
    pub fn describe(&self) -> (text: String)
        ensures
            text@ == self.description(),
    {
        match self {
            APIError::Http(status) => {
                let mut text = "HTTP error with status code: ".to_owned();
                text.append(print_status(status).as_str());
                text
            },
            APIError::Reqwest(error) => {
                let mut text = "Request error: ".to_owned();
                text.append(print_transport_error(error).as_str());
                text
            },
            APIError::Serialization(error, _) => {
                let mut text = "Serialization error: ".to_owned();
                text.append(error.describe().as_str());
                text
            },
            APIError::BadRequest(status, body) => {
                let mut text = "Bad request (".to_owned();
                text.append(print_status(status).as_str());
                text.append("): ");
                text.append(body.as_str());
                text
            },
        }
    }
}

impl From<reqwest::Error> for APIError {
    fn from(error: reqwest::Error) -> (failure: APIError) {
        APIError::Reqwest(error)
    }
}

impl vstd::std_specs::convert::FromSpecImpl<reqwest::Error> for APIError {
    open spec fn obeys_from_spec() -> bool {
        true
    }

    open spec fn from_spec(error: reqwest::Error) -> APIError {
        APIError::Reqwest(error)
    }
}

} // verus!
