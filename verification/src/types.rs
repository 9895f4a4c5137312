//! Wire-level data carried between the executor core and its callers: the
//! uniform response envelope and the records describing packages, the
//! package-manager installation, and streamed log events.

use vstd::prelude::*;

verus! {

/// Uniform envelope for every command's answer: a success flag, an optional
/// payload, an optional machine-readable error code, and a human-readable
/// message.
pub struct ApiResponse<T> {
    pub ok: bool,
    pub data: Option<T>,
    pub error_code: Option<String>,
    pub message: String,
}

/// Where the package-manager executable was found and what version it
/// reported.
pub struct BrewStatus {
    pub brew_path: String,
    pub version: String,
}

/// One installed, outdated or found package: its name, optionally a version,
/// and whether it is a formula or a cask.
pub struct BrewPackage {
    pub name: String,
    pub version: Option<String>,
    pub kind: String,
}

/// Wire form of one streamed event, as delivered to the UI event bus:
/// `stage` is `"start"`, `"line"` or `"end"`; `stream` and `line` are set
/// only on line events; `success` only on the end event.
#[derive(Clone)]
pub struct BrewLogEvent {
    pub request_id: String,
    pub stage: String,
    pub stream: Option<String>,
    pub line: Option<String>,
    pub success: Option<bool>,
}

/// Builds the successful response envelope around `data`.
pub fn ok<T>(data: T, message: &str) -> (r: ApiResponse<T>)
    ensures
        r.ok == true,
        r.data == Some(data),
        r.error_code is None,
        r.message@ == message@,
{
    ApiResponse {
        ok: true,
        data: Some(data),
        error_code: None,
        message: message.to_owned(),
    }
}

/// Builds the failing response envelope carrying `code` and `message`.
pub fn err<T>(code: &str, message: &str) -> (r: ApiResponse<T>)
    ensures
        r.ok == false,
        r.data is None,
        r.error_code is Some && r.error_code->0@ == code@,
        r.message@ == message@,
{
    ApiResponse {
        ok: false,
        data: None,
        error_code: Some(code.to_owned()),
        message: message.to_owned(),
    }
}

} // verus!
