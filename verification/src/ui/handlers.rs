//! Replies of the HTTP API: the envelope every reply travels in, and which
//! status code and envelope answer each outcome of a track operation.

use vstd::prelude::*;
use vstd::string::StringExecFns;

verus! {

/// HTTP 200.
pub const STATUS_OK: u16 = 200;

/// HTTP 201.
pub const STATUS_CREATED: u16 = 201;

/// HTTP 400.
pub const STATUS_BAD_REQUEST: u16 = 400;

/// HTTP 404.
pub const STATUS_NOT_FOUND: u16 = 404;

/// The envelope of every reply: either data or an error message.
pub struct ApiResponse<T> {
    pub success: bool,
    pub data: Option<T>,
    pub error: Option<String>,
}

impl<T> ApiResponse<T> {
    /// A successful reply that carries `data`.
    pub fn ok(data: T) -> (r: Self)
        ensures
            r.success,
            r.data == Some(data),
            r.error is None,
    {
        Self { success: true, data: Some(data), error: None }
    }

    /// A failed reply that carries the message.
    pub fn error(msg: String) -> (r: Self)
        ensures
            !r.success,
            r.data is None,
            r.error == Some(msg),
    {
        Self { success: false, data: None, error: Some(msg) }
    }
}

/// What the status endpoint reports.
pub struct SystemStatus {
    pub mode: String,
    pub track_count: usize,
    pub uptime_seconds: u64,
}

/// Body of a request to mute or unmute a track.
pub struct MuteRequest {
    pub muted: bool,
}

/// Body of a request to solo or unsolo a track.
pub struct SoloRequest {
    pub solo: bool,
}

/// The mode a status reply names.
pub open spec fn mode_name(is_sender: bool) -> Seq<char> {
    if is_sender {
        "sender"@
    } else {
        "receiver"@
    }
}

/// The reply to a status request: the endpoint's mode, its number of
/// tracks, and an uptime of zero.
pub fn get_status(is_sender: bool, track_count: usize) -> (r: ApiResponse<SystemStatus>)
    ensures
        r.success,
        r.error is None,
        r.data is Some,
        r.data->0.mode@ == mode_name(is_sender),
        r.data->0.track_count == track_count,
        r.data->0.uptime_seconds == 0,
{
    let mode = if is_sender {
        String::from_str("sender")
    } else {
        String::from_str("receiver")
    };
    ApiResponse::ok(SystemStatus { mode, track_count, uptime_seconds: 0 })
}

/// The status code and envelope for an outcome: `on_success` with the value,
/// or `on_failure` with the message.
pub open spec fn reply_of<T>(outcome: Result<T, String>, on_success: u16, on_failure: u16) -> (
    u16,
    ApiResponse<T>,
) {
    match outcome {
        Ok(value) => (on_success, ApiResponse { success: true, data: Some(value), error: None }),
        Err(msg) => (on_failure, ApiResponse { success: false, data: None, error: Some(msg) }),
    }
}

fn reply<T>(outcome: Result<T, String>, on_success: u16, on_failure: u16) -> (r: (
    u16,
    ApiResponse<T>,
))
    ensures
        r == reply_of(outcome, on_success, on_failure),
{
    match outcome {
        Ok(value) => (on_success, ApiResponse::ok(value)),
        Err(msg) => (on_failure, ApiResponse::error(msg)),
    }
}

/// The reply to a request that creates a track: 201 with the new track's
/// id, or 400 with the message.
pub fn create_track(outcome: Result<u8, String>) -> (r: (u16, ApiResponse<u8>))
    ensures
        r == reply_of(outcome, STATUS_CREATED, STATUS_BAD_REQUEST),
{
    reply(outcome, STATUS_CREATED, STATUS_BAD_REQUEST)
}

/// The reply to a request that deletes a track: 200, or 404 with the message.
pub fn delete_track<T>(outcome: Result<T, String>) -> (r: (u16, ApiResponse<T>))
    ensures
        r == reply_of(outcome, STATUS_OK, STATUS_NOT_FOUND),
{
    reply(outcome, STATUS_OK, STATUS_NOT_FOUND)
}

/// The reply to a request that updates a track: 200, or 400 with the message.
pub fn update_track<T>(outcome: Result<T, String>) -> (r: (u16, ApiResponse<T>))
    ensures
        r == reply_of(outcome, STATUS_OK, STATUS_BAD_REQUEST),
{
    reply(outcome, STATUS_OK, STATUS_BAD_REQUEST)
}

/// The reply to a request that mutes or unmutes a track: 200, or 404 with the message.
pub fn set_mute<T>(outcome: Result<T, String>) -> (r: (u16, ApiResponse<T>))
    ensures
        r == reply_of(outcome, STATUS_OK, STATUS_NOT_FOUND),
{
    reply(outcome, STATUS_OK, STATUS_NOT_FOUND)
}

/// The reply to a request that solos or unsolos a track: 200, or 404 with the message.
pub fn set_solo<T>(outcome: Result<T, String>) -> (r: (u16, ApiResponse<T>))
    ensures
        r == reply_of(outcome, STATUS_OK, STATUS_NOT_FOUND),
{
    reply(outcome, STATUS_OK, STATUS_NOT_FOUND)
}

/// The reply to a request that starts a track: 200, or 400 with the message.
pub fn start_track<T>(outcome: Result<T, String>) -> (r: (u16, ApiResponse<T>))
    ensures
        r == reply_of(outcome, STATUS_OK, STATUS_BAD_REQUEST),
{
    reply(outcome, STATUS_OK, STATUS_BAD_REQUEST)
}

/// The reply to a request that stops a track: 200, or 400 with the message.
pub fn stop_track<T>(outcome: Result<T, String>) -> (r: (u16, ApiResponse<T>))
    ensures
        r == reply_of(outcome, STATUS_OK, STATUS_BAD_REQUEST),
{
    reply(outcome, STATUS_OK, STATUS_BAD_REQUEST)
}

} // verus!
