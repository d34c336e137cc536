//! The socket the server listens on: what its errors mean, and who may take its file
//! away.

use crate::text::{byte_len, cat7, count_bytes, decimal, decimal_text};
use vstd::prelude::*;

verus! {

/// The kinds of input and output errors that are told apart.
#[derive(Debug, Clone, Copy, PartialEq, Eq, Structural)]
pub enum IoKind {
    NotFound,
    ConnectionRefused,
    ConnectionReset,
    ConnectionAborted,
    NotConnected,
    AddrInUse,
    BrokenPipe,
    WouldBlock,
    InvalidInput,
    TimedOut,
    WriteZero,
    Interrupted,
    UnexpectedEof,
    Other,
}

/// An input or output error.
#[derive(Debug, PartialEq, Eq)]
pub struct IoFailure {
    pub kind: IoKind,
    pub message: String,
}

// ---------------------------------------------------------------------------
// Paths
// ---------------------------------------------------------------------------

/// How many bytes the path of a socket may have on macOS.
pub const MACOS_SUN_PATH_LIMIT: usize = 104;

/// How many bytes the path of a socket may have on Linux.
pub const LINUX_SUN_PATH_LIMIT: usize = 108;

/// How many bytes the path of a socket may have here.
pub fn sun_path_limit(macos: bool) -> (r: usize)
    ensures
        r == (if macos {
            MACOS_SUN_PATH_LIMIT
        } else {
            LINUX_SUN_PATH_LIMIT
        }),
{
    if macos {
        MACOS_SUN_PATH_LIMIT
    } else {
        LINUX_SUN_PATH_LIMIT
    }
}

/// The complaint about a path that is too long.
pub open spec fn path_too_long(path: Seq<char>, limit: nat) -> Seq<char> {
    "socket path is too long for this platform: "@ + decimal(byte_len(path))
        + " bytes, but sockaddr_un.sun_path holds at most "@ + decimal(limit) + ".\n  path: "@
        + path
        + "\n\nKarvex derives this path from XDG_CONFIG_HOME (or the platform config directory) plus the session name. Fix it with a shorter XDG_CONFIG_HOME or a shorter `--session <name>`."@
}

/// Whether a path fits, and the complaint where it does not.
pub open spec fn path_len_checked(path: Seq<char>, limit: nat, r: Result<(), String>) -> bool {
    &&& r is Ok <==> byte_len(path) <= limit
    &&& r matches Err(m) ==> m@ == path_too_long(path, limit)
}

/// A path fits where its bytes are no more than the limit.
pub fn check_socket_path_len_against(path: &str, limit: usize) -> (r: Result<(), String>)
    requires
        byte_len(path@) <= usize::MAX,
    ensures
        path_len_checked(path@, limit as nat, r),
{
    let len = count_bytes(path);
    if len <= limit as u64 {
        return Ok(());
    }
    Err(
        cat7(
            "socket path is too long for this platform: ",
            decimal_text(len).as_str(),
            " bytes, but sockaddr_un.sun_path holds at most ",
            decimal_text(limit as u64).as_str(),
            ".\n  path: ",
            path,
            "\n\nKarvex derives this path from XDG_CONFIG_HOME (or the platform config directory) plus the session name. Fix it with a shorter XDG_CONFIG_HOME or a shorter `--session <name>`.",
        ),
    )
}

pub fn check_socket_path_len(path: &str, macos: bool) -> (r: Result<(), String>)
    requires
        byte_len(path@) <= usize::MAX,
    ensures
        ({
            let limit = if macos {
                MACOS_SUN_PATH_LIMIT
            } else {
                LINUX_SUN_PATH_LIMIT
            };
            path_len_checked(path@, limit as nat, r)
        }),
{
    check_socket_path_len_against(path, sun_path_limit(macos))
}

/// A path that fits on macOS fits everywhere.
pub proof fn law_what_fits_macos_fits_linux(path: Seq<char>)
    ensures
        byte_len(path) <= MACOS_SUN_PATH_LIMIT ==> byte_len(path) <= LINUX_SUN_PATH_LIMIT,
{
}

// ---------------------------------------------------------------------------
// Preparing the path
// ---------------------------------------------------------------------------

/// An error that says that nothing listens on a socket any more.
pub open spec fn is_stale(kind: IoKind, windows: bool) -> bool {
    kind is ConnectionRefused || kind is NotFound || kind is TimedOut || (windows
        && kind is WouldBlock)
}

pub fn stale_socket_connect_error(kind: IoKind, windows: bool) -> (r: bool)
    ensures
        r == is_stale(kind, windows),
{
    match kind {
        IoKind::ConnectionRefused | IoKind::NotFound | IoKind::TimedOut => true,
        IoKind::WouldBlock => windows,
        _ => false,
    }
}

/// What is done about the path of a socket.
#[derive(Debug, Clone, Copy, PartialEq, Eq, Structural)]
pub enum SocketPath {
    /// It is free.
    Ready,
    /// It is left over: remove it.
    RemoveStale,
    /// Something listens on it.
    Busy,
    /// It could not be told.
    Fail(IoKind),
}

/// What is done about a path, by what connecting to it gave.
pub open spec fn path_state(connect: Option<Result<(), IoKind>>, windows: bool) -> SocketPath {
    match connect {
        None => SocketPath::Ready,
        Some(Ok(_)) => SocketPath::Busy,
        Some(Err(kind)) => if is_stale(kind, windows) {
            SocketPath::RemoveStale
        } else {
            SocketPath::Fail(kind)
        },
    }
}

/// `connect` is what connecting to the path gave; nothing where there is no such
/// file.
pub fn prepare_socket_path(connect: Option<Result<(), IoKind>>, windows: bool) -> (r: SocketPath)
    ensures
        r == path_state(connect, windows),
{
    match connect {
        None => SocketPath::Ready,
        Some(Ok(_)) => SocketPath::Busy,
        Some(Err(kind)) => if stale_socket_connect_error(kind, windows) {
            SocketPath::RemoveStale
        } else {
            SocketPath::Fail(kind)
        },
    }
}

/// Why a file could not be removed, where that matters.
pub open spec fn failed_removal(removed: Result<(), IoKind>) -> Option<IoKind> {
    match removed {
        Err(kind) => if kind is NotFound {
            None
        } else {
            Some(kind)
        },
        Ok(_) => None,
    }
}

/// Removing a file that is gone already is no failure.
pub fn removal_failure(removed: Result<(), IoKind>) -> (r: Option<IoKind>)
    ensures
        r == failed_removal(removed),
{
    match removed {
        Err(IoKind::NotFound) => None,
        Err(kind) => Some(kind),
        Ok(_) => None,
    }
}

// ---------------------------------------------------------------------------
// Reading
// ---------------------------------------------------------------------------

/// What a read from a connection found.
#[derive(Debug, Clone, Copy, PartialEq, Eq, Structural)]
pub enum LocalStreamRead {
    Data,
    Pending,
    Closed,
}

/// An error that says that the other end is gone.
pub open spec fn is_closed(kind: IoKind) -> bool {
    kind is BrokenPipe || kind is ConnectionAborted || kind is ConnectionReset
        || kind is NotConnected || kind is UnexpectedEof || kind is WriteZero
}

pub fn is_connection_closed_error(kind: IoKind) -> (r: bool)
    ensures
        r == is_closed(kind),
{
    match kind {
        IoKind::BrokenPipe
        | IoKind::ConnectionAborted
        | IoKind::ConnectionReset
        | IoKind::NotConnected
        | IoKind::UnexpectedEof
        | IoKind::WriteZero => true,
        _ => false,
    }
}

/// What a read that does not wait found.
pub open spec fn stream_read(read: Result<usize, IoKind>) -> Result<LocalStreamRead, IoKind> {
    match read {
        Ok(n) => if n == 0 {
            Ok(LocalStreamRead::Closed)
        } else {
            Ok(LocalStreamRead::Data)
        },
        Err(kind) => if kind is WouldBlock {
            Ok(LocalStreamRead::Pending)
        } else {
            Err(kind)
        },
    }
}

/// What a read that does not wait found, by the number of bytes it gave.
pub fn poll_local_stream_read(read: Result<usize, IoKind>) -> (r: Result<LocalStreamRead, IoKind>)
    ensures
        r == stream_read(read),
{
    match read {
        Ok(n) => if n == 0 {
            Ok(LocalStreamRead::Closed)
        } else {
            Ok(LocalStreamRead::Data)
        },
        Err(IoKind::WouldBlock) => Ok(LocalStreamRead::Pending),
        Err(kind) => Err(kind),
    }
}

/// What a read from a named pipe found, by how much it holds.
pub open spec fn pipe_read(available: Option<u32>, read: Result<usize, IoKind>) -> Result<
    LocalStreamRead,
    IoKind,
> {
    match available {
        None => Ok(LocalStreamRead::Closed),
        Some(n) => if n == 0 {
            Ok(LocalStreamRead::Pending)
        } else {
            match read {
                Ok(k) => if k == 0 {
                    Ok(LocalStreamRead::Closed)
                } else {
                    Ok(LocalStreamRead::Data)
                },
                Err(kind) => if is_closed(kind) {
                    Ok(LocalStreamRead::Closed)
                } else {
                    Err(kind)
                },
            }
        },
    }
}

/// What a read from a named pipe found. `available` is how much it holds, and nothing
/// where it is closed; `read` is only looked at where it holds something.
pub fn poll_named_pipe_read(available: Option<u32>, read: Result<usize, IoKind>) -> (r: Result<
    LocalStreamRead,
    IoKind,
>)
    ensures
        r == pipe_read(available, read),
{
    match available {
        None => Ok(LocalStreamRead::Closed),
        Some(n) => if n == 0 {
            Ok(LocalStreamRead::Pending)
        } else {
            match read {
                Ok(k) => if k == 0 {
                    Ok(LocalStreamRead::Closed)
                } else {
                    Ok(LocalStreamRead::Data)
                },
                Err(kind) => if is_connection_closed_error(kind) {
                    Ok(LocalStreamRead::Closed)
                } else {
                    Err(kind)
                },
            }
        },
    }
}

/// Whether the other end of a connection is gone.
pub open spec fn other_end_gone(read: Result<usize, IoKind>) -> Result<bool, IoKind> {
    match read {
        Ok(_) => Ok(true),
        Err(kind) => if kind is WouldBlock || kind is Interrupted {
            Ok(false)
        } else if is_closed(kind) {
            Ok(true)
        } else {
            Err(kind)
        },
    }
}

/// Whether the other end is gone, by what a read of one byte that does not wait gave:
/// a byte that was not asked for ends a connection as much as its end does.
pub fn probe_stream_closed(read: Result<usize, IoKind>) -> (r: Result<bool, IoKind>)
    ensures
        r == other_end_gone(read),
{
    match read {
        Ok(_) => Ok(true),
        Err(IoKind::WouldBlock) => Ok(false),
        Err(IoKind::Interrupted) => Ok(false),
        Err(kind) => if is_connection_closed_error(kind) {
            Ok(true)
        } else {
            Err(kind)
        },
    }
}

// ---------------------------------------------------------------------------
// Ownership
// ---------------------------------------------------------------------------

/// What tells one socket file from another.
#[derive(Debug, PartialEq, Eq)]
pub enum SocketFileIdentity {
    Unix { dev: u64, ino: u64 },
    Windows { marker: Vec<u8> },
}

/// Whether two identities are of one file.
pub open spec fn same_file(a: SocketFileIdentity, b: SocketFileIdentity) -> bool {
    match (a, b) {
        (
            SocketFileIdentity::Unix { dev, ino },
            SocketFileIdentity::Unix { dev: d, ino: i },
        ) => dev == d && ino == i,
        (
            SocketFileIdentity::Windows { marker },
            SocketFileIdentity::Windows { marker: m },
        ) => marker@ == m@,
        _ => false,
    }
}

fn same_bytes(a: &Vec<u8>, b: &Vec<u8>) -> (r: bool)
    ensures
        r == (a@ == b@),
{
    if a.len() != b.len() {
        return false;
    }
    let mut i: usize = 0;
    while i < a.len()
        invariant
            i <= a@.len(),
            a@.len() == b@.len(),
            forall|j: int| 0 <= j < i ==> a@[j] == b@[j],
        decreases a@.len() - i,
    {
        if a[i] != b[i] {
            return false;
        }
        i = i + 1;
    }
    assert(a@ =~= b@);
    true
}

fn is_same_file(a: &SocketFileIdentity, b: &SocketFileIdentity) -> (r: bool)
    ensures
        r == same_file(*a, *b),
{
    match (a, b) {
        (
            SocketFileIdentity::Unix { dev, ino },
            SocketFileIdentity::Unix { dev: d, ino: i },
        ) => *dev == *d && *ino == *i,
        (
            SocketFileIdentity::Windows { marker },
            SocketFileIdentity::Windows { marker: m },
        ) => same_bytes(marker, m),
        _ => false,
    }
}

/// What is done about a socket file at the end.
#[derive(Debug, Clone, Copy, PartialEq, Eq, Structural)]
pub enum SocketFile {
    /// It is gone, or another one's by now.
    Leave,
    /// It is ours.
    Remove,
    Fail(IoKind),
}

/// What is done about a socket file, by the identity of the one that is there now.
pub open spec fn file_fate(
    current: Result<SocketFileIdentity, IoKind>,
    identity: SocketFileIdentity,
) -> SocketFile {
    match current {
        Ok(now) => if same_file(now, identity) {
            SocketFile::Remove
        } else {
            SocketFile::Leave
        },
        Err(kind) => if kind is NotFound {
            SocketFile::Leave
        } else {
            SocketFile::Fail(kind)
        },
    }
}

/// `current` is the identity of the file that is there now.
pub fn remove_socket_file_if_owned(
    current: Result<SocketFileIdentity, IoKind>,
    identity: &SocketFileIdentity,
) -> (r: SocketFile)
    ensures
        r == file_fate(current, *identity),
{
    match current {
        Ok(now) => if is_same_file(&now, identity) {
            SocketFile::Remove
        } else {
            SocketFile::Leave
        },
        Err(IoKind::NotFound) => SocketFile::Leave,
        Err(kind) => SocketFile::Fail(kind),
    }
}

} // verus!
