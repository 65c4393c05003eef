//! What a reply of the cloud status service means for one device.
use vstd::prelude::*;
use crate::json::{member, str_of, Json};

verus! {

/// A decoded reply of the status service.
#[derive(Debug)]
pub struct ApiResponse {
    pub isok: bool,
    pub errors: Option<Json>,
    pub data: Option<ApiData>,
}

/// The data part of a successful reply.
#[derive(Debug)]
pub struct ApiData {
    pub device_status: Option<Json>,
}

/// Why a reply gave no device status.
#[derive(Debug)]
pub enum FetchError {
    /// The service refused the credential, with its message (or
    /// "Unknown error" when it gave none as text).
    InvalidToken(String),
    /// The service reported these errors.
    Rejected(Json),
    /// The service reported failure without saying why.
    Unknown,
    /// The reply succeeded but carried no device status.
    Missing,
}

/// The message of an invalid-token error: its text, or "Unknown error".
pub open spec fn token_message(m: Json) -> Seq<char> {
    match str_of(Some(m)) {
        Some(s) => s,
        None => "Unknown error"@,
    }
}

/// Whether `r` is what `resp` means: the device status of a successful
/// reply, or the error it reports.
pub open spec fn response_meaning(resp: ApiResponse, r: Result<Json, FetchError>) -> bool {
    if resp.isok {
        match resp.data {
            Some(ApiData { device_status: Some(s) }) => r == Ok::<Json, FetchError>(s),
            _ => r matches Err(FetchError::Missing),
        }
    } else {
        match resp.errors {
            None => r matches Err(FetchError::Unknown),
            Some(e) => match member(Some(e), "invalid_token"@) {
                Some(m) => r matches Err(FetchError::InvalidToken(msg)) && msg@ == token_message(m),
                None => r == Err::<Json, FetchError>(FetchError::Rejected(e)),
            },
        }
    }
}

/// The device status a reply carries, or why it carries none.
pub fn interpret_response(resp: ApiResponse) -> (r: Result<Json, FetchError>)
    ensures
        response_meaning(resp, r),
{
    if !resp.isok {
        match resp.errors {
            None => Err(FetchError::Unknown),
            Some(errors) => {
                let message = match errors.get("invalid_token") {
                    Some(Json::Str(s)) => Some(s.clone()),
                    Some(_) => Some(String::from_str("Unknown error")),
                    None => None,
                };
                match message {
                    Some(m) => Err(FetchError::InvalidToken(m)),
                    None => Err(FetchError::Rejected(errors)),
                }
            },
        }
    } else {
        match resp.data {
            Some(ApiData { device_status: Some(s) }) => Ok(s),
            _ => Err(FetchError::Missing),
        }
    }
}

} // verus!
