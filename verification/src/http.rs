//! The loopback control surface: which request asks for what, and the text of
//! every answer.
//!
//! The caller owns the socket. It hands the request in as text, does what
//! the route asks for, and sends the answer that is built here.

use vstd::prelude::*;
use vstd::utf8::encode_utf8;

use crate::device::{PollKind, StartedAuth};
use crate::text::{
    decimal, escape_quotes, i64_to_string, join2, join3, quotes_escaped, signed_decimal,
    starts_with, u64_to_string,
};

verus! {

/// The port on which the control surface listens.
pub const HTTP_PORT: u16 = 23847;

/// What a request asks for.
#[derive(Debug, Clone, Copy, PartialEq, Eq, Structural)]
pub enum Route {
    /// The address of the pending device authorization.
    CurrentUrl,
    /// Start a device authorization.
    StartDeviceAuth,
    /// Poll the pending device authorization once.
    PollDeviceAuth,
    /// Whether the service is up.
    Status,
    /// Read the account store again.
    ReloadAccounts,
    /// Give the device a new identity.
    ResetMachineId,
    /// Nothing that the surface offers.
    NotFound,
}

/// The route of a request, decided by how the request begins. The tests are
/// made in this order, and the first that holds decides.
pub open spec fn route_of(request: Seq<char>) -> Route {
    if "GET /get_device_auth_url"@.is_prefix_of(request) {
        Route::CurrentUrl
    } else if "POST /start_device_auth"@.is_prefix_of(request)
        || "GET /start_device_auth"@.is_prefix_of(request) {
        Route::StartDeviceAuth
    } else if "POST /poll_device_auth"@.is_prefix_of(request)
        || "GET /poll_device_auth"@.is_prefix_of(request) {
        Route::PollDeviceAuth
    } else if "GET /status"@.is_prefix_of(request) {
        Route::Status
    } else if "GET /reload_accounts"@.is_prefix_of(request)
        || "POST /reload_accounts"@.is_prefix_of(request) {
        Route::ReloadAccounts
    } else if "GET /reset_machine_id"@.is_prefix_of(request)
        || "POST /reset_machine_id"@.is_prefix_of(request) {
        Route::ResetMachineId
    } else {
        Route::NotFound
    }
}

/// Decides what a request asks for.
pub fn route(request: &str) -> (r: Route)
    ensures
        r == route_of(request@),
{
    if starts_with(request, "GET /get_device_auth_url") {
        Route::CurrentUrl
    } else if starts_with(request, "POST /start_device_auth") || starts_with(
        request,
        "GET /start_device_auth",
    ) {
        Route::StartDeviceAuth
    } else if starts_with(request, "POST /poll_device_auth") || starts_with(
        request,
        "GET /poll_device_auth",
    ) {
        Route::PollDeviceAuth
    } else if starts_with(request, "GET /status") {
        Route::Status
    } else if starts_with(request, "GET /reload_accounts") || starts_with(
        request,
        "POST /reload_accounts",
    ) {
        Route::ReloadAccounts
    } else if starts_with(request, "GET /reset_machine_id") || starts_with(
        request,
        "POST /reset_machine_id",
    ) {
        Route::ResetMachineId
    } else {
        Route::NotFound
    }
}

/// The status line of an answer.
#[derive(Debug, Clone, Copy, PartialEq, Eq, Structural)]
pub enum Status {
    Success,
    NotFound,
    InternalServerError,
}

impl Status {
    pub open spec fn text(self) -> Seq<char> {
        match self {
            Status::Success => "200 OK"@,
            Status::NotFound => "404 Not Found"@,
            Status::InternalServerError => "500 Internal Server Error"@,
        }
    }

    pub fn as_str(&self) -> (r: &'static str)
        ensures
            r@ == self.text(),
    {
        match self {
            Status::Success => "200 OK",
            Status::NotFound => "404 Not Found",
            Status::InternalServerError => "500 Internal Server Error",
        }
    }
}

/// An answer as it goes over the wire: status line, the headers of a JSON
/// body that any origin may read, the length of the body in bytes, an empty
/// line and the body.
pub open spec fn response_text(status: Status, body: Seq<char>) -> Seq<char> {
    "HTTP/1.1 "@ + status.text()
        + "\r\nContent-Type: application/json\r\nAccess-Control-Allow-Origin: *\r\nContent-Length: "@
        + decimal(encode_utf8(body).len()) + "\r\n\r\n"@ + body
}

/// Frames a JSON body as an HTTP answer.
pub fn http_response(status: Status, body: &str) -> (r: String)
    ensures
        r@ == response_text(status, body@),
{
    let length: usize = body.as_bytes().len();
    String::from_str("HTTP/1.1 ").concat(status.as_str()).concat(
        "\r\nContent-Type: application/json\r\nAccess-Control-Allow-Origin: *\r\nContent-Length: ",
    ).concat(u64_to_string(length as u64).as_str()).concat("\r\n\r\n").concat(body)
}

/// The body that tells the address of the pending authorization.
pub open spec fn url_body_text(url: Option<Seq<char>>) -> Seq<char> {
    match url {
        Some(u) => "{\"url\":\""@ + u + "\"}"@,
        None => "{\"url\":null}"@,
    }
}

/// The body that tells the address of the pending authorization, or that
/// there is none.
pub fn url_body(url: Option<&str>) -> (r: String)
    ensures
        r@ == url_body_text(
            match url {
                Some(u) => Some(u@),
                None => None,
            },
        ),
{
    match url {
        Some(u) => join3("{\"url\":\"", u, "\"}"),
        None => String::from_str("{\"url\":null}"),
    }
}

/// The body that tells of an authorization that was started.
pub open spec fn started_body_text(
    url: Seq<char>,
    device_code: Seq<char>,
    expires_in: i64,
    interval: i64,
) -> Seq<char> {
    "{\"success\":true,\"url\":\""@ + url + "\",\"device_code\":\""@ + device_code
        + "\",\"expires_in\":"@ + signed_decimal(expires_in as int) + ",\"interval\":"@
        + signed_decimal(interval as int) + "}"@
}

/// The body that tells of an authorization that was started.
pub fn started_body(started: &StartedAuth) -> (r: String)
    ensures
        r@ == started_body_text(
            started.url@,
            started.device_code@,
            started.expires_in,
            started.interval,
        ),
{
    String::from_str("{\"success\":true,\"url\":\"").concat(started.url.as_str()).concat(
        "\",\"device_code\":\"",
    ).concat(started.device_code.as_str()).concat("\",\"expires_in\":").concat(
        i64_to_string(started.expires_in).as_str(),
    ).concat(",\"interval\":").concat(i64_to_string(started.interval).as_str()).concat("}")
}

/// The body that tells why an action failed.
pub open spec fn failure_body_text(error: Seq<char>) -> Seq<char> {
    "{\"success\":false,\"error\":\""@ + quotes_escaped(error) + "\"}"@
}

/// The body that tells why an action failed, with the quotes of the reason
/// escaped.
pub fn failure_body(error: &str) -> (r: String)
    ensures
        r@ == failure_body_text(error@),
{
    join3("{\"success\":false,\"error\":\"", escape_quotes(error).as_str(), "\"}")
}

/// The body that tells why a poll could not be made.
pub open spec fn poll_error_body_text(error: Seq<char>) -> Seq<char> {
    "{\"status\":\"error\",\"error\":\""@ + quotes_escaped(error) + "\"}"@
}

/// The body that tells why a poll could not be made, with the quotes of the
/// reason escaped.
pub fn poll_error_body(error: &str) -> (r: String)
    ensures
        r@ == poll_error_body_text(error@),
{
    join3("{\"status\":\"error\",\"error\":\"", escape_quotes(error).as_str(), "\"}")
}

/// The word for an outcome that left no token.
pub open spec fn status_word(kind: PollKind) -> Seq<char> {
    match kind {
        PollKind::Success => "success"@,
        PollKind::Pending => "pending"@,
        PollKind::SlowDown => "slow_down"@,
        PollKind::Expired => "expired"@,
        PollKind::Denied => "denied"@,
        PollKind::Transient => "error"@,
    }
}

/// The word for the kind of a poll's outcome.
pub fn status_name(kind: PollKind) -> (r: &'static str)
    ensures
        r@ == status_word(kind),
{
    match kind {
        PollKind::Success => "success",
        PollKind::Pending => "pending",
        PollKind::SlowDown => "slow_down",
        PollKind::Expired => "expired",
        PollKind::Denied => "denied",
        PollKind::Transient => "error",
    }
}

/// The body that tells the outcome of a poll that left no token.
pub fn poll_status_body(kind: PollKind) -> (r: String)
    ensures
        r@ == "{\"status\":\""@ + status_word(kind) + "\"}"@,
{
    join3("{\"status\":\"", status_name(kind), "\"}")
}

/// The body that tells of a poll that brought an account.
pub open spec fn poll_success_body_text(
    email: Seq<char>,
    account_id: Seq<char>,
    new_machine_id: Option<Seq<char>>,
) -> Seq<char> {
    "{\"status\":\"success\",\"email\":\""@ + email + "\",\"account_id\":\""@ + account_id
        + match new_machine_id {
        Some(id) => "\",\"machine_id_reset\":true,\"new_machine_id\":\""@ + id + "\"}"@,
        None => "\",\"machine_id_reset\":false}"@,
    }
}

/// The body that tells of a poll that brought an account, and of the new
/// identity of the device where it was given one.
pub fn poll_success_body(email: &str, account_id: &str, new_machine_id: Option<&str>) -> (r: String)
    ensures
        r@ == poll_success_body_text(
            email@,
            account_id@,
            match new_machine_id {
                Some(id) => Some(id@),
                None => None,
            },
        ),
{
    let head = String::from_str("{\"status\":\"success\",\"email\":\"").concat(email).concat(
        "\",\"account_id\":\"",
    ).concat(account_id);
    match new_machine_id {
        Some(id) => head.concat("\",\"machine_id_reset\":true,\"new_machine_id\":\"").concat(
            id,
        ).concat("\"}"),
        None => head.concat("\",\"machine_id_reset\":false}"),
    }
}

/// The body that tells that the service is up.
pub fn status_body() -> (r: String)
    ensures
        r@ == "{\"status\":\"running\",\"version\":\"1.5.1\"}"@,
{
    String::from_str("{\"status\":\"running\",\"version\":\"1.5.1\"}")
}

/// The body that tells how many accounts were read.
pub fn reload_body(count: usize) -> (r: String)
    ensures
        r@ == "{\"success\":true,\"count\":"@ + decimal(count as nat) + "}"@,
{
    join3("{\"success\":true,\"count\":", u64_to_string(count as u64).as_str(), "}")
}

/// The body that tells the new identity of the device.
pub open spec fn machine_reset_body_text(
    machine_id: Seq<char>,
    sqm_id: Seq<char>,
    dev_device_id: Seq<char>,
) -> Seq<char> {
    "{\"success\":true,\"machineId\":\""@ + machine_id + "\",\"sqmId\":\""@ + sqm_id
        + "\",\"devDeviceId\":\""@ + dev_device_id + "\"}"@
}

/// The body that tells the new identity of the device.
pub fn machine_reset_body(machine_id: &str, sqm_id: &str, dev_device_id: &str) -> (r: String)
    ensures
        r@ == machine_reset_body_text(machine_id@, sqm_id@, dev_device_id@),
{
    String::from_str("{\"success\":true,\"machineId\":\"").concat(machine_id).concat(
        "\",\"sqmId\":\"",
    ).concat(sqm_id).concat("\",\"devDeviceId\":\"").concat(dev_device_id).concat("\"}")
}

/// The body that answers a request for something that is not offered.
pub open spec fn not_found_body_text() -> Seq<char> {
    "{\"error\":\"Not Found\",\"endpoints\":[\"/get_device_auth_url\",\"/start_device_auth\",\"/poll_device_auth\",\"/reload_accounts\",\"/reset_machine_id\",\"/status\"]}"@
}

/// The body that answers a request for something that is not offered: it
/// lists what is.
pub fn not_found_body() -> (r: String)
    ensures
        r@ == not_found_body_text(),
{
    String::from_str(
        "{\"error\":\"Not Found\",\"endpoints\":[\"/get_device_auth_url\",\"/start_device_auth\",\"/poll_device_auth\",\"/reload_accounts\",\"/reset_machine_id\",\"/status\"]}",
    )
}

/// What a command that polls once answers: the word of the outcome, with the
/// identity after a success; an authorization that is over without a token
/// is an error.
pub open spec fn command_reply_text(kind: PollKind, email: Seq<char>) -> Result<
    Seq<char>,
    Seq<char>,
> {
    match kind {
        PollKind::Success => Ok("success:"@ + email),
        PollKind::Pending => Ok("pending"@),
        PollKind::SlowDown => Ok("slow_down"@),
        PollKind::Expired => Err("expired"@),
        PollKind::Denied => Err("denied"@),
        PollKind::Transient => Err("error"@),
    }
}

/// The view of a reply.
pub open spec fn reply_view(r: Result<String, String>) -> Result<Seq<char>, Seq<char>> {
    match r {
        Ok(s) => Ok(s@),
        Err(e) => Err(e@),
    }
}

/// What a command that polls once answers for an outcome of the given kind.
pub fn command_reply(kind: PollKind, email: &str) -> (r: Result<String, String>)
    ensures
        reply_view(r) == command_reply_text(kind, email@),
{
    match kind {
        PollKind::Success => Ok(join2("success:", email)),
        PollKind::Pending => Ok(String::from_str("pending")),
        PollKind::SlowDown => Ok(String::from_str("slow_down")),
        PollKind::Expired => Err(String::from_str("expired")),
        PollKind::Denied => Err(String::from_str("denied")),
        PollKind::Transient => Err(String::from_str("error")),
    }
}

/// The answer to a request for the address of the pending authorization.
pub fn url_reply(url: Option<&str>) -> (r: String)
    ensures
        r@ == response_text(
            Status::Success,
            url_body_text(
                match url {
                    Some(u) => Some(u@),
                    None => None,
                },
            ),
        ),
{
    http_response(Status::Success, url_body(url).as_str())
}

/// The answer to a request that started an authorization, or failed to.
pub fn start_reply(outcome: &Result<StartedAuth, String>) -> (r: String)
    ensures
        r@ == match outcome {
            Ok(s) => response_text(
                Status::Success,
                started_body_text(s.url@, s.device_code@, s.expires_in, s.interval),
            ),
            Err(e) => response_text(Status::InternalServerError, failure_body_text(e@)),
        },
{
    match outcome {
        Ok(started) => http_response(Status::Success, started_body(started).as_str()),
        Err(e) => http_response(Status::InternalServerError, failure_body(e.as_str()).as_str()),
    }
}

/// The answer to a request that polled: the body that tells the outcome, or
/// the reason why no poll was made.
pub fn poll_reply(outcome: &Result<String, String>) -> (r: String)
    ensures
        r@ == match outcome {
            Ok(body) => response_text(Status::Success, body@),
            Err(e) => response_text(Status::InternalServerError, poll_error_body_text(e@)),
        },
{
    match outcome {
        Ok(body) => http_response(Status::Success, body.as_str()),
        Err(e) => http_response(
            Status::InternalServerError,
            poll_error_body(e.as_str()).as_str(),
        ),
    }
}

/// The answer to a request that gave the device a new identity, or failed
/// to. The outcome holds the machine, telemetry and device identifiers.
pub fn reset_reply(outcome: &Result<(String, String, String), String>) -> (r: String)
    ensures
        r@ == match outcome {
            Ok(ids) => response_text(
                Status::Success,
                machine_reset_body_text(ids.0@, ids.1@, ids.2@),
            ),
            Err(e) => response_text(Status::InternalServerError, failure_body_text(e@)),
        },
{
    match outcome {
        Ok(ids) => http_response(
            Status::Success,
            machine_reset_body(ids.0.as_str(), ids.1.as_str(), ids.2.as_str()).as_str(),
        ),
        Err(e) => http_response(Status::InternalServerError, failure_body(e.as_str()).as_str()),
    }
}

/// The answer to a request that read the account store again.
pub fn reload_reply(count: usize) -> (r: String)
    ensures
        r@ == response_text(
            Status::Success,
            "{\"success\":true,\"count\":"@ + decimal(count as nat) + "}"@,
        ),
{
    http_response(Status::Success, reload_body(count).as_str())
}

/// The answer to a request for the state of the service.
pub fn status_reply() -> (r: String)
    ensures
        r@ == response_text(Status::Success, "{\"status\":\"running\",\"version\":\"1.5.1\"}"@),
{
    http_response(Status::Success, status_body().as_str())
}

/// The answer to a request for something that is not offered.
pub fn not_found_reply() -> (r: String)
    ensures
        r@ == response_text(Status::NotFound, not_found_body_text()),
{
    http_response(Status::NotFound, not_found_body().as_str())
}

} // verus!
