//! The six questions asked about each repository, and what an answer to
//! each of them means.
//!
//! A lookup never stops a scan. Whatever goes wrong with it is a
//! [`LookupError`], and the caller of a lookup puts the field's default in
//! the place of the missing answer.

use vstd::prelude::*;

verus! {

/// One of the six questions asked about a repository.
#[derive(Clone, Copy, Debug, PartialEq, Eq, Structural)]
pub enum Lookup {
    /// Is there a `.github/dependabot.yml`?
    DependabotFile,
    /// Is there a `.github/CODEOWNERS`?
    CodeownersFile,
    /// How many Dependabot alerts are there?
    DependabotAlerts,
    /// How many secret scanning alerts are there?
    SecretScanningAlerts,
    /// How many code scanning alerts are there?
    CodeScanningAlerts,
    /// How many pull requests are open?
    OpenPullRequests,
}

/// Why a lookup has no answer.
#[derive(Clone, Copy, Debug, PartialEq, Eq, Structural)]
pub enum LookupError {
    /// The address of the endpoint is no URL, so nothing was sent.
    InvalidEndpoint,
    /// The request could not be sent, or no complete response came back.
    Transport,
    /// The endpoint answered with a status that is neither 200 nor 404.
    UnexpectedStatus(u16),
    /// The body of the response is not the JSON that the lookup reads.
    Undecodable,
}

/// What came back for one request: the HTTP status and the bytes of the body.
#[derive(Debug)]
pub struct Response {
    pub status: u16,
    pub body: Vec<u8>,
}

/// HTTP 200.
pub const STATUS_OK: u16 = 200;

/// HTTP 404.
pub const STATUS_NOT_FOUND: u16 = 404;

/// `serde_json::Value`, a decoded JSON value. Nothing inside it is visible
/// here; the lookups only count such values.
#[verifier::external_type_specification]
#[verifier::external_body]
pub struct ExJsonValue(serde_json::Value);

/// `serde_json::Error`, the decoder's error. Nothing inside it is visible
/// here; it only says that the decoder failed.
#[verifier::external_type_specification]
#[verifier::external_body]
pub struct ExJsonError(serde_json::Error);

/// What `serde_json::from_slice::<Vec<serde_json::Value>>` makes of `body`:
/// the number of elements that it decodes, or `None` where it fails.
pub uninterp spec fn json_list_len(body: Seq<u8>) -> Option<nat>;

/// Decodes `body` as a JSON array with `serde_json::from_slice`. Nothing is
/// proved of the decoder: its result is only given the name `json_list_len`,
/// by the number of elements that came out.
#[verifier::external_body]
fn decode_list(body: &[u8]) -> (decoded: Result<Vec<serde_json::Value>, serde_json::Error>)
    ensures
        json_list_len(body@) == match decoded {
            Ok(items) => Some(items@.len()),
            Err(_) => None,
        },
{
    serde_json::from_slice::<Vec<serde_json::Value>>(body)
}

/// What `serde_json::from_slice::<serde_json::Value>` makes of `body`:
/// `None` where it fails, `Some(None)` where the value that it decodes is
/// no array, and `Some(Some(n))` where it is an array of `n` elements.
pub uninterp spec fn json_array_len(body: Seq<u8>) -> Option<Option<nat>>;

/// Decodes `body` as any JSON value with `serde_json::from_slice` and hands
/// out its elements if it is an array. Nothing is proved of the decoder: its
/// result is only given the name `json_array_len`.
#[verifier::external_body]
fn decode_array(body: &[u8]) -> (decoded: Result<
    Option<Vec<serde_json::Value>>,
    serde_json::Error,
>)
    ensures
        json_array_len(body@) == match decoded {
            Ok(Some(items)) => Some(Some(items@.len())),
            Ok(None) => Some(None),
            Err(_) => None,
        },
{
    match serde_json::from_slice::<serde_json::Value>(body) {
        Ok(serde_json::Value::Array(items)) => Ok(Some(items)),
        Ok(serde_json::Value::Null) => Ok(None),
        Ok(serde_json::Value::Bool(_)) => Ok(None),
        Ok(serde_json::Value::Number(_)) => Ok(None),
        Ok(serde_json::Value::String(_)) => Ok(None),
        Ok(serde_json::Value::Object(_)) => Ok(None),
        Err(error) => Err(error),
    }
}

/// A count as a natural number.
pub open spec fn widened(count: Result<usize, LookupError>) -> Result<nat, LookupError> {
    match count {
        Ok(n) => Ok(n as nat),
        Err(e) => Err(e),
    }
}

/// Whether a file is there, by the status with which its contents endpoint
/// answered: 200 says yes, 404 says no, anything else is no answer.
pub open spec fn file_presence(status: u16) -> Result<bool, LookupError> {
    if status == STATUS_OK {
        Ok(true)
    } else if status == STATUS_NOT_FOUND {
        Ok(false)
    } else {
        Err(LookupError::UnexpectedStatus(status))
    }
}

/// The number of alerts, by the status with which an alerts endpoint
/// answered and by the length of the list in the body. 404 means that the
/// feature is switched off for the repository: no alerts, and no error.
pub open spec fn alert_count(status: u16, list_len: Option<nat>) -> Result<nat, LookupError> {
    if status == STATUS_OK {
        match list_len {
            Some(n) => Ok(n),
            None => Err(LookupError::Undecodable),
        }
    } else if status == STATUS_NOT_FOUND {
        Ok(0)
    } else {
        Err(LookupError::UnexpectedStatus(status))
    }
}

/// The number of open pull requests, by the status with which the pulls
/// endpoint answered and by what the body decodes to. With status 200 it
/// is the length of an array, 0 for any other JSON value, and no answer
/// where the body is no JSON. With status 404 it is 0 and no error, whatever
/// the body holds. Any other status is no answer.
pub open spec fn open_pull_request_count(status: u16, array_len: Option<Option<nat>>) -> Result<
    nat,
    LookupError,
> {
    if status == STATUS_OK {
        match array_len {
            Some(Some(n)) => Ok(n),
            Some(None) => Ok(0),
            None => Err(LookupError::Undecodable),
        }
    } else if status == STATUS_NOT_FOUND {
        Ok(0)
    } else {
        Err(LookupError::UnexpectedStatus(status))
    }
}

/// Whether a lookup reads the body of a response that came with `status`.
/// The lookups for files never do; the four that count read it with
/// status 200 and with no other.
pub open spec fn body_is_read(lookup: Lookup, status: u16) -> bool {
    match lookup {
        Lookup::DependabotFile | Lookup::CodeownersFile => false,
        Lookup::DependabotAlerts
        | Lookup::SecretScanningAlerts
        | Lookup::CodeScanningAlerts
        | Lookup::OpenPullRequests => status == STATUS_OK,
    }
}

/// Says whether the body of a response with this status has to be fetched
/// for the lookup. Where it says no, the body may be left empty.
pub fn reads_body(lookup: Lookup, status: u16) -> (read: bool)
    ensures
        read == body_is_read(lookup, status),
{
    match lookup {
        Lookup::DependabotFile | Lookup::CodeownersFile => false,
        Lookup::DependabotAlerts
        | Lookup::SecretScanningAlerts
        | Lookup::CodeScanningAlerts
        | Lookup::OpenPullRequests => status == STATUS_OK,
    }
}

/// Answers a lookup for a file from the response of its contents endpoint.
pub fn file_exists(response: &Response) -> (exists: Result<bool, LookupError>)
    ensures
        exists == file_presence(response.status),
{
    if response.status == STATUS_OK {
        Ok(true)
    } else if response.status == STATUS_NOT_FOUND {
        Ok(false)
    } else {
        Err(LookupError::UnexpectedStatus(response.status))
    }
}

/// The number of alerts for a status and for the length of the list that
/// the body was decoded to, `None` where it was not decoded.
pub fn number_of_alerts_for(status: u16, list_len: Option<usize>) -> (count: Result<
    usize,
    LookupError,
>)
    ensures
        widened(count) == alert_count(
            status,
            match list_len {
                Some(n) => Some(n as nat),
                None => None,
            },
        ),
{
    if status == STATUS_OK {
        match list_len {
            Some(n) => Ok(n),
            None => Err(LookupError::Undecodable),
        }
    } else if status == STATUS_NOT_FOUND {
        Ok(0)
    } else {
        Err(LookupError::UnexpectedStatus(status))
    }
}

/// Answers a lookup for a number of alerts from the response of the alerts
/// endpoint. The body is decoded only where the status is 200.
pub fn number_of_alerts(response: &Response) -> (count: Result<usize, LookupError>)
    ensures
        widened(count) == alert_count(response.status, json_list_len(response.body@)),
{
    let list_len = if response.status == STATUS_OK {
        match decode_list(response.body.as_slice()) {
            Ok(items) => Some(items.len()),
            Err(_) => None,
        }
    } else {
        None
    };
    number_of_alerts_for(response.status, list_len)
}

/// The number of open pull requests for a status and for what the body
/// was decoded to: `None` where it is no JSON or was not decoded,
/// `Some(None)` where it is JSON but no array, `Some(Some(n))` for an array
/// of `n` elements.
pub fn number_of_open_pull_requests_for(status: u16, array_len: Option<Option<usize>>) -> (count:
    Result<usize, LookupError>)
    ensures
        widened(count) == open_pull_request_count(
            status,
            match array_len {
                Some(Some(n)) => Some(Some(n as nat)),
                Some(None) => Some(None),
                None => None,
            },
        ),
{
    if status == STATUS_OK {
        match array_len {
            Some(Some(n)) => Ok(n),
            Some(None) => Ok(0),
            None => Err(LookupError::Undecodable),
        }
    } else if status == STATUS_NOT_FOUND {
        Ok(0)
    } else {
        Err(LookupError::UnexpectedStatus(status))
    }
}

/// Answers the lookup for the number of open pull requests from the
/// response of the pulls endpoint. The body is decoded only where the
/// status is 200.
pub fn get_number_of_open_pull_requests(response: &Response) -> (count: Result<
    usize,
    LookupError,
>)
    ensures
        widened(count) == open_pull_request_count(
            response.status,
            json_array_len(response.body@),
        ),
{
    let array_len = if response.status == STATUS_OK {
        match decode_array(response.body.as_slice()) {
            Ok(Some(items)) => Some(Some(items.len())),
            Ok(None) => Some(None),
            Err(_) => None,
        }
    } else {
        None
    };
    number_of_open_pull_requests_for(response.status, array_len)
}

/// The value of a lookup, with the field's default where it has no answer.
pub open spec fn value_or<T>(answer: Result<T, LookupError>, default: T) -> T {
    match answer {
        Ok(value) => value,
        Err(_) => default,
    }
}

/// The error of a lookup that has no answer.
pub open spec fn error_of<T>(answer: Result<T, LookupError>) -> Option<LookupError> {
    match answer {
        Ok(_) => None,
        Err(e) => Some(e),
    }
}

/// Settles a lookup: its answer, or else the default together with the
/// error, which is then only something to report.
pub fn or_default<T>(answer: Result<T, LookupError>, default: T) -> (settled: (
    T,
    Option<LookupError>,
))
    ensures
        settled.0 == value_or(answer, default),
        settled.1 == error_of(answer),
{
    match answer {
        Ok(value) => (value, None),
        Err(e) => (default, Some(e)),
    }
}

} // verus!
