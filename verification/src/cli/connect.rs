//! What is told where the server cannot be talked to, and how its plain answers are
//! shown.

use crate::cli::render::{complaint, shows};
use crate::console::Console;
use crate::documents::Reply;
use crate::ipc::{IoFailure, IoKind};
use crate::json::{at, member, text_at, Json};
use crate::text::{
    byte_len, cat3, cat7, contains_part, count_bytes, decimal, decimal_text, has_part, opt_text,
};
use vstd::prelude::*;

verus! {

/// The variable that overrides where the socket of the server is.
pub const SOCKET_PATH_ENV_VAR: &'static str = "KARVEX_SOCKET_PATH";

/// Why a request got no reply.
#[derive(Debug, PartialEq, Eq)]
pub enum ApiClientError {
    Io(IoFailure),
    /// The reply was no JSON.
    Json,
    EmptyResponse,
    /// The server answered with an error.
    ErrorResponse(ErrorResponse),
    /// The reply was of another kind than was asked for.
    UnexpectedResult(String),
}

/// An error as the server itself would report it.
#[derive(Debug, PartialEq, Eq)]
pub struct ErrorResponse {
    pub id: String,
    pub code: String,
    pub message: String,
}

/// Nothing listens on the socket.
pub open spec fn is_not_running(failure: IoFailure) -> bool {
    failure.kind is NotFound || failure.kind is ConnectionRefused
}

pub fn server_not_running_error(failure: &IoFailure) -> (r: bool)
    ensures
        r == is_not_running(*failure),
{
    match failure.kind {
        IoKind::NotFound | IoKind::ConnectionRefused => true,
        _ => false,
    }
}

/// The path of the socket does not fit its address.
pub open spec fn is_path_too_long(failure: IoFailure) -> bool {
    failure.kind is InvalidInput && has_part(failure.message@, "sun_path"@)
}

pub fn socket_path_too_long_error(failure: &IoFailure) -> (r: bool)
    ensures
        r == is_path_too_long(*failure),
{
    match failure.kind {
        IoKind::InvalidInput => contains_part(failure.message.as_str(), "sun_path"),
        _ => false,
    }
}

/// The message about a path that does not fit.
pub open spec fn too_long_message(socket_path: Seq<char>) -> Seq<char> {
    "cannot connect: the karvex socket path is "@ + decimal(byte_len(socket_path))
        + " bytes, longer than this OS's unix domain socket address can hold (the kernel's sun_path field typically caps out around 100-108 bytes): "@
        + socket_path + ". Set "@ + SOCKET_PATH_ENV_VAR@
        + "=<a shorter path> to override where karvex looks for the socket, or use a shorter --session name."@
}

pub fn socket_path_too_long_response(request_id: &str, socket_path: &str) -> (r: ErrorResponse)
    requires
        byte_len(socket_path@) <= usize::MAX,
    ensures
        r.id@ == request_id@,
        r.code@ == "socket_path_too_long"@,
        r.message@ == too_long_message(socket_path@),
{
    ErrorResponse {
        id: request_id.to_owned(),
        code: "socket_path_too_long".to_owned(),
        message: cat7(
            "cannot connect: the karvex socket path is ",
            decimal_text(count_bytes(socket_path)).as_str(),
            " bytes, longer than this OS's unix domain socket address can hold (the kernel's sun_path field typically caps out around 100-108 bytes): ",
            socket_path,
            ". Set ",
            SOCKET_PATH_ENV_VAR,
            "=<a shorter path> to override where karvex looks for the socket, or use a shorter --session name.",
        ),
    }
}

/// The message about a server that is not there.
pub open spec fn not_running_message(socket_path: Seq<char>) -> Seq<char> {
    "no karvex server is listening on "@ + socket_path
        + ". Start one with `kvx` or `kvx server`, then run this again."@
}

/// The error for a server that is not there.
pub fn server_not_running_response(request_id: &str, socket_path: &str) -> (r: ErrorResponse)
    ensures
        r.id@ == request_id@,
        r.code@ == "server_not_running"@,
        r.message@ == not_running_message(socket_path@),
{
    ErrorResponse {
        id: request_id.to_owned(),
        code: "server_not_running".to_owned(),
        message: cat3(
            "no karvex server is listening on ",
            socket_path,
            ". Start one with `kvx` or `kvx server`, then run this again.",
        ),
    }
}

/// What a failed request is told as.
#[derive(Debug, PartialEq, Eq)]
pub enum Failure {
    /// As an error of its own, which is printed where the command ends.
    Reported(ErrorResponse),
    /// As it is.
    Passed(ApiClientError),
}

/// What a failed request is told as, by its error.
pub open spec fn failure_told(
    error: ApiClientError,
    request_id: Seq<char>,
    socket_path: Seq<char>,
    r: Failure,
) -> bool {
    match error {
        ApiClientError::Io(io) => if is_not_running(io) {
            r matches Failure::Reported(e) && e.id@ == request_id && e.code@
                == "server_not_running"@ && e.message@ == not_running_message(socket_path)
        } else if is_path_too_long(io) {
            r matches Failure::Reported(e) && e.id@ == request_id && e.code@
                == "socket_path_too_long"@ && e.message@ == too_long_message(socket_path)
        } else {
            r == Failure::Passed(error)
        },
        _ => r == Failure::Passed(error),
    }
}

/// A server that is not there, and a path that does not fit, are told in words that
/// help; everything else is passed on.
pub fn map_server_not_running_or_io(
    error: ApiClientError,
    request_id: &str,
    socket_path: &str,
) -> (r: Failure)
    requires
        byte_len(socket_path@) <= usize::MAX,
    ensures
        failure_told(error, request_id@, socket_path@, r),
{
    match error {
        ApiClientError::Io(io) => if server_not_running_error(&io) {
            Failure::Reported(server_not_running_response(request_id, socket_path))
        } else if socket_path_too_long_error(&io) {
            Failure::Reported(socket_path_too_long_response(request_id, socket_path))
        } else {
            Failure::Passed(ApiClientError::Io(io))
        },
        other => Failure::Passed(other),
    }
}

/// Whether a server is spoken to, by the protocol version it answered with.
#[derive(Debug, PartialEq, Eq)]
pub enum ProtocolCheck {
    Compatible,
    /// It was told that the versions differ.
    Mismatch,
    /// The server said nothing of its version.
    Unknown(String),
}

/// Whether a server is spoken to, and what is told where it is not.
pub open spec fn protocol_checked(
    protocol: Option<u32>,
    mismatch: Option<Seq<char>>,
    before: Console,
    after: Console,
    r: ProtocolCheck,
) -> bool {
    match (protocol, mismatch) {
        (None, _) => after == before && (r matches ProtocolCheck::Unknown(m) && m@
            == "server ping did not include a protocol version"@),
        (Some(_), None) => after == before && r is Compatible,
        (Some(_), Some(line)) => r is Mismatch && shows(before, after, 1, complaint(line, 1)),
    }
}

/// `mismatch` is the error to print where `protocol` is not the one spoken here.
pub fn ensure_server_protocol_compatible(
    protocol: Option<u32>,
    mismatch: Option<String>,
    console: &mut Console,
) -> (r: ProtocolCheck)
    ensures
        protocol_checked(protocol, opt_text(mismatch), *old(console), *final(console), r),
{
    match protocol {
        None => ProtocolCheck::Unknown(
            "server ping did not include a protocol version".to_owned(),
        ),
        Some(_) => match mismatch {
            None => ProtocolCheck::Compatible,
            Some(line) => {
                let _ = console.complain(line.as_str(), 1);
                ProtocolCheck::Mismatch
            },
        },
    }
}

/// What is printed of a pane that was read: the text, with no line break added.
#[derive(Debug, PartialEq, Eq)]
pub enum ReadShown {
    Text(String),
    Nothing,
    Failed(i32),
}

/// What is told of a pane that was read.
pub open spec fn read_told(reply: Reply, before: Console, after: Console, r: ReadShown) -> bool {
    if member(reply.value, "error"@) is Some {
        r == ReadShown::Failed(1) && shows(before, after, 1, complaint(reply.compact@, 1))
    } else {
        after == before && match text_at(at(at(reply.value, "result"@), "read"@), "text"@) {
            Some(text) => r matches ReadShown::Text(t) && t@ == text,
            None => r is Nothing,
        }
    }
}

pub fn print_read_response(reply: &Reply, console: &mut Console) -> (r: ReadShown)
    ensures
        read_told(*reply, *old(console), *final(console), r),
{
    if reply.value.get("error").is_some() {
        return ReadShown::Failed(console.complain(reply.compact.as_str(), 1));
    }
    let null = Json::Null;
    match reply.value.at("result", &null).at("read", &null).text_at("text") {
        Some(text) => ReadShown::Text(text),
        None => ReadShown::Nothing,
    }
}

/// What is told of a request whose success needs no words.
pub open spec fn ok_told(reply: Reply, before: Console, after: Console, r: i32) -> bool {
    if member(reply.value, "error"@) is Some {
        shows(before, after, r, complaint(reply.compact@, 1))
    } else {
        r == 0 && after == before
    }
}

/// A request whose success needs no words.
pub fn send_ok_request(reply: &Reply, console: &mut Console) -> (r: i32)
    ensures
        ok_told(*reply, *old(console), *final(console), r),
{
    if reply.value.get("error").is_some() {
        console.complain(reply.compact.as_str(), 1)
    } else {
        0
    }
}

} // verus!
