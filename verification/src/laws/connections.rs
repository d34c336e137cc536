//! What connections, sockets, panes and plain values promise.

use crate::app::panes::{
    files_written, lead_spawned, planned_split, review_spawned, trust_checked, version_read, Launch,
    LeadSpawnError, SpawnedPane,
};
use crate::cli::connect::{
    failure_told, ok_told, protocol_checked, read_told, ApiClientError, Failure, ProtocolCheck,
    ReadShown,
};
use crate::cli::values::{
    agent_status_of, pane_agent_state_of, read_format_of, read_source_of, split_direction_of,
    token_of, variable_of, AgentStatus, PaneAgentState, ReadFormat, ReadSource, SplitDirection,
};
use crate::console::Console;
use crate::documents::Reply;
use crate::ipc::{
    failed_removal, file_fate, is_closed, other_end_gone, path_len_checked, path_state, pipe_read,
    stream_read, IoKind, LocalStreamRead, SocketFile, SocketFileIdentity, SocketPath,
};
use crate::json::{at, member, text_at};
use crate::text::{byte_len, decimal, has_part, trim};
use vstd::prelude::*;

verus! {

// ---------------------------------------------------------------------------
// Requests
// ---------------------------------------------------------------------------

/// A request that found no server is told with the socket it looked at, and one whose path
/// did not fit with that path, both under the id of the request; every other failure is
/// passed on as it is.
pub proof fn law_a_missing_server_is_told_with_its_socket(
    error: ApiClientError,
    request_id: Seq<char>,
    socket_path: Seq<char>,
    r: Failure,
)
    requires
        failure_told(error, request_id, socket_path, r),
    ensures
        error matches ApiClientError::Io(io) ==> {
            let missing = io.kind == IoKind::NotFound || io.kind == IoKind::ConnectionRefused;
            let long = io.kind == IoKind::InvalidInput && has_part(io.message@, "sun_path"@);
            &&& missing ==> (r matches Failure::Reported(e) && e.id@ == request_id && e.code@
                == "server_not_running"@ && has_part(e.message@, socket_path))
            &&& long ==> (r matches Failure::Reported(e) && e.id@ == request_id && e.code@
                == "socket_path_too_long"@ && has_part(e.message@, socket_path) && has_part(
                e.message@,
                decimal(byte_len(socket_path)),
            ) && has_part(e.message@, "KARVEX_SOCKET_PATH"@))
            &&& !missing && !long ==> r == Failure::Passed(error)
        },
        error !is Io ==> r == Failure::Passed(error),
{
    broadcast use {
        crate::laws::places::lemma_part_of_either,
        crate::laws::places::lemma_part_of_itself,
    };

}

/// A server is spoken to where it told its version and nothing is wrong with that. A
/// mismatch is printed as it is, and nothing else ever is.
pub proof fn law_only_a_fitting_server_is_spoken_to(
    protocol: Option<u32>,
    mismatch: Option<Seq<char>>,
    before: Console,
    after: Console,
    r: ProtocolCheck,
)
    requires
        protocol_checked(protocol, mismatch, before, after, r),
    ensures
        r is Compatible <==> protocol is Some && mismatch is None,
        r is Mismatch <==> protocol is Some && mismatch is Some,
        r is Unknown <==> protocol is None,
        r is Mismatch ==> after.err_lines() == before.err_lines() + seq![mismatch->0],
        r !is Mismatch ==> after == before,
        after.out_lines() == before.out_lines(),
{
    assert(before.out_lines() + Seq::<Seq<char>>::empty() =~= before.out_lines());
}

/// What was read of a pane is shown as it is; an error is printed and fails. A request that
/// needs no words succeeds silently unless its answer is an error.
pub proof fn law_an_error_is_printed_and_fails(
    reply: Reply,
    before: Console,
    after: Console,
    read: ReadShown,
    r: i32,
)
    ensures
        read_told(reply, before, after, read) ==> {
            let failed = member(reply.value, "error"@) is Some;
            let text = text_at(at(at(reply.value, "result"@), "read"@), "text"@);
            &&& failed ==> read == ReadShown::Failed(1) && after.err_lines() == before.err_lines()
                + seq![reply.compact@] && after.out_lines() == before.out_lines()
            &&& !failed && text is Some ==> (read matches ReadShown::Text(t) && t@ == text->0)
            &&& !failed && text is None ==> read is Nothing
            &&& !failed ==> after == before
        },
        ok_told(reply, before, after, r) ==> {
            let failed = member(reply.value, "error"@) is Some;
            &&& failed ==> r == 1 && after.err_lines() == before.err_lines() + seq![
                reply.compact@,
            ] && after.out_lines() == before.out_lines()
            &&& !failed ==> r == 0 && after == before
        },
{
    assert(before.out_lines() + Seq::<Seq<char>>::empty() =~= before.out_lines());
}

// ---------------------------------------------------------------------------
// Sockets
// ---------------------------------------------------------------------------

/// A path fits up to its limit and no further; one that does not is complained of with its
/// own length and the limit.
pub proof fn law_a_path_fits_up_to_its_limit(path: Seq<char>, limit: nat, r: Result<(), String>)
    requires
        path_len_checked(path, limit, r),
    ensures
        byte_len(path) <= limit <==> r is Ok,
        r matches Err(m) ==> has_part(m@, path) && has_part(m@, decimal(byte_len(path)))
            && has_part(m@, decimal(limit)),
{
    broadcast use {
        crate::laws::places::lemma_part_of_either,
        crate::laws::places::lemma_part_of_itself,
    };

}

/// A path that is free is used, and one that something listens on is never taken. What is
/// left over is removed, which on Windows a connection that would block shows too; whatever
/// else went wrong is told.
pub proof fn law_a_socket_in_use_is_never_removed(
    connect: Option<Result<(), IoKind>>,
    windows: bool,
)
    ensures
        connect is None <==> path_state(connect, windows) == SocketPath::Ready,
        (connect matches Some(tried) && tried is Ok) <==> path_state(connect, windows)
            == SocketPath::Busy,
        path_state(connect, windows) == SocketPath::RemoveStale <==> (connect matches Some(Err(kind))
            && (kind == IoKind::ConnectionRefused || kind == IoKind::NotFound || kind
            == IoKind::TimedOut || (windows && kind == IoKind::WouldBlock))),
        path_state(connect, windows) matches SocketPath::Fail(kind) ==> connect == Some(
            Err::<(), IoKind>(kind),
        ),
{
}

/// A file that is gone already was removed well enough; every other failure is told.
pub proof fn law_a_file_gone_is_no_failure(removed: Result<(), IoKind>)
    ensures
        failed_removal(removed) is None <==> removed is Ok || removed == Err::<(), IoKind>(
            IoKind::NotFound,
        ),
        failed_removal(removed) matches Some(kind) ==> removed == Err::<(), IoKind>(kind),
{
}

/// A read that does not wait found bytes where it gave some, and the end where it gave none;
/// one that would have waited found nothing yet, and every other failure is one.
pub proof fn law_a_read_without_bytes_is_the_end(read: Result<usize, IoKind>)
    ensures
        stream_read(read) == Ok::<LocalStreamRead, IoKind>(LocalStreamRead::Closed) <==> read
            == Ok::<usize, IoKind>(0),
        stream_read(read) == Ok::<LocalStreamRead, IoKind>(LocalStreamRead::Data) <==> (
        read matches Ok(n) && n > 0),
        stream_read(read) == Ok::<LocalStreamRead, IoKind>(LocalStreamRead::Pending) <==> read
            == Err::<usize, IoKind>(IoKind::WouldBlock),
        stream_read(read) matches Err(kind) ==> read == Err::<usize, IoKind>(kind) && kind
            != IoKind::WouldBlock,
{
}

/// A named pipe is closed where it is gone, and is not read where it holds nothing; where it
/// holds something the read decides, and one that the other end broke off is the end too.
pub proof fn law_an_empty_pipe_is_pending(available: Option<u32>, read: Result<usize, IoKind>)
    ensures
        available is None ==> pipe_read(available, read) == Ok::<LocalStreamRead, IoKind>(
            LocalStreamRead::Closed,
        ),
        available == Some(0u32) <==> pipe_read(available, read) == Ok::<LocalStreamRead, IoKind>(
            LocalStreamRead::Pending,
        ),
        (available matches Some(n) && n > 0) ==> {
            let r = pipe_read(available, read);
            &&& (read matches Ok(k) && k > 0) <==> r == Ok::<LocalStreamRead, IoKind>(
                LocalStreamRead::Data,
            )
            &&& read == Ok::<usize, IoKind>(0) ==> r == Ok::<LocalStreamRead, IoKind>(
                LocalStreamRead::Closed,
            )
            &&& read matches Err(kind) ==> if is_closed(kind) {
                r == Ok::<LocalStreamRead, IoKind>(LocalStreamRead::Closed)
            } else {
                r == Err::<LocalStreamRead, IoKind>(kind)
            }
        },
{
}

/// The failures that say that the other end is gone.
pub proof fn law_a_broken_connection_is_closed(kind: IoKind)
    ensures
        is_closed(kind) <==> kind == IoKind::BrokenPipe || kind == IoKind::ConnectionAborted || kind
            == IoKind::ConnectionReset || kind == IoKind::NotConnected || kind
            == IoKind::UnexpectedEof || kind == IoKind::WriteZero,
{
}

/// The other end is there only where nothing could be read for now: a read that gave
/// anything, and one that failed as a broken connection does, say that it is gone.
pub proof fn law_only_silence_keeps_a_connection(read: Result<usize, IoKind>)
    ensures
        other_end_gone(read) == Ok::<bool, IoKind>(false) <==> read == Err::<usize, IoKind>(
            IoKind::WouldBlock,
        ) || read == Err::<usize, IoKind>(IoKind::Interrupted),
        other_end_gone(read) == Ok::<bool, IoKind>(true) <==> read is Ok || (read matches Err(kind)
            && is_closed(kind)),
        other_end_gone(read) matches Err(kind) ==> read == Err::<usize, IoKind>(kind),
{
}

/// A socket file is removed only where it is the very one that was made here: the same
/// device and number, or the same marker. One that is gone is left, and so is another's.
pub proof fn law_only_our_own_socket_file_is_removed(
    current: Result<SocketFileIdentity, IoKind>,
    identity: SocketFileIdentity,
)
    ensures
        file_fate(current, identity) == SocketFile::Remove <==> match (current, identity) {
            (
                Ok(SocketFileIdentity::Unix { dev, ino }),
                SocketFileIdentity::Unix { dev: d, ino: i },
            ) => dev == d && ino == i,
            (
                Ok(SocketFileIdentity::Windows { marker }),
                SocketFileIdentity::Windows { marker: m },
            ) => marker@ == m@,
            _ => false,
        },
        current == Err::<SocketFileIdentity, IoKind>(IoKind::NotFound) ==> file_fate(
            current,
            identity,
        ) == SocketFile::Leave,
        file_fate(current, identity) matches SocketFile::Fail(kind) ==> current == Err::<
            SocketFileIdentity,
            IoKind,
        >(kind) && kind != IoKind::NotFound,
        current is Ok ==> file_fate(current, identity) !is Fail,
        (current matches Err(kind) && kind != IoKind::NotFound) ==> file_fate(current, identity)
            is Fail,
{
}

// ---------------------------------------------------------------------------
// Panes
// ---------------------------------------------------------------------------

/// A lead starts only with a program that answered, in a directory that is trusted and with
/// all its files written; otherwise the first thing that is wrong is told.
pub proof fn law_a_lead_starts_only_where_all_is_well(
    output: Result<String, String>,
    version: Result<String, LeadSpawnError>,
    trusted: bool,
    cwd: Seq<char>,
    trust: Result<(), LeadSpawnError>,
    directory: Result<(), String>,
    prompt: Result<(), String>,
    settings: Result<(), String>,
)
    requires
        version_read(output, version),
        trust_checked(trusted, cwd, trust),
    ensures
        output matches Ok(printed) ==> (version matches Ok(text) && text@ == trim(printed@)),
        output matches Err(e) ==> (version matches Err(LeadSpawnError::ClaudeUnavailable(m)) && m
            == e),
        trust is Ok <==> trusted,
        !trusted ==> (trust matches Err(LeadSpawnError::CwdNotTrusted(named)) && named@ == cwd),
        files_written(directory, prompt, settings) is Ok <==> directory is Ok && prompt is Ok
            && settings is Ok,
        directory matches Err(e) ==> files_written(directory, prompt, settings) == Err::<
            (),
            LeadSpawnError,
        >(LeadSpawnError::RunDirUnwritable(e)),
        directory is Ok ==> (prompt matches Err(e) ==> files_written(directory, prompt, settings)
            == Err::<(), LeadSpawnError>(LeadSpawnError::RunDirUnwritable(e))),
        directory is Ok && prompt is Ok ==> (settings matches Err(e) ==> files_written(
            directory,
            prompt,
            settings,
        ) == Err::<(), LeadSpawnError>(LeadSpawnError::RunDirUnwritable(e))),
{
}

/// The pane with the focus is the one that is split, and the one that comes of it is as
/// large as was estimated but never smaller than it has to be.
pub proof fn law_a_split_is_large_enough(
    focused: Option<u64>,
    estimate: (u16, u16),
    least: (u16, u16),
)
    ensures
        planned_split(focused, estimate, least) is Some <==> focused is Some,
        planned_split(focused, estimate, least) matches Some(plan) ==> {
            &&& Some(plan.target_pane) == focused
            &&& plan.rows >= least.0 && plan.rows >= estimate.0
            &&& plan.cols >= least.1 && plan.cols >= estimate.1
            &&& plan.rows == least.0 || plan.rows == estimate.0
            &&& plan.cols == least.1 || plan.cols == estimate.1
        },
{
}

/// A pane that is up and can be named by everyone is the pane that was asked for; without a
/// name it is none, and a launch that failed fails with its own reason.
pub proof fn law_a_pane_needs_a_name(launch: Launch, review: Result<SpawnedPane, String>)
    requires
        review_spawned(launch, review),
    ensures
        lead_spawned(launch) is Ok <==> (launch matches Launch::Up { public_id, .. }
            && public_id is Some),
        review is Ok <==> lead_spawned(launch) is Ok,
        lead_spawned(launch) matches Ok(p) ==> (launch matches Launch::Up { terminal_id, public_id }
            && p.terminal_id == terminal_id && Some(p.pane_id) == public_id && review == Ok::<
            SpawnedPane,
            String,
        >(p)),
        launch matches Launch::Failed(e) ==> lead_spawned(launch) == Err::<
            SpawnedPane,
            LeadSpawnError,
        >(LeadSpawnError::PaneLaunchFailed(e)) && review == Err::<SpawnedPane, String>(e),
        launch is NoPane ==> lead_spawned(launch) == Err::<SpawnedPane, LeadSpawnError>(
            LeadSpawnError::NoTargetPane,
        ) && (review matches Err(m) && m@ == "no pane to split for the review"@),
        (launch matches Launch::Up { public_id, .. } && public_id is None) ==> lead_spawned(launch)
            == Err::<SpawnedPane, LeadSpawnError>(LeadSpawnError::NoTargetPane) && (
        review matches Err(m) && m@ == "the review pane has no public id"@),
{
}

// ---------------------------------------------------------------------------
// Values
// ---------------------------------------------------------------------------

/// Each value goes by its own word and by no other.
pub proof fn law_a_value_goes_by_its_word(value: Seq<char>)
    ensures
        split_direction_of(value) == Some(SplitDirection::Right) <==> value == "right"@,
        split_direction_of(value) == Some(SplitDirection::Down) <==> value == "down"@,
        read_source_of(value) == Some(ReadSource::Visible) <==> value == "visible"@,
        read_source_of(value) == Some(ReadSource::Recent) <==> value == "recent"@,
        read_source_of(value) == Some(ReadSource::RecentUnwrapped) <==> value
            == "recent-unwrapped"@ || value == "recent_unwrapped"@,
        read_source_of(value) == Some(ReadSource::Detection) <==> value == "detection"@,
        read_format_of(value) == Some(ReadFormat::Text) <==> value == "text"@,
        read_format_of(value) == Some(ReadFormat::Ansi) <==> value == "ansi"@,
        agent_status_of(value) == Some(AgentStatus::Idle) <==> value == "idle"@,
        agent_status_of(value) == Some(AgentStatus::Working) <==> value == "working"@,
        agent_status_of(value) == Some(AgentStatus::Blocked) <==> value == "blocked"@,
        agent_status_of(value) == Some(AgentStatus::Done) <==> value == "done"@,
        agent_status_of(value) == Some(AgentStatus::Unknown) <==> value == "unknown"@,
        pane_agent_state_of(value) == Some(PaneAgentState::Idle) <==> value == "idle"@,
        pane_agent_state_of(value) == Some(PaneAgentState::Working) <==> value == "working"@,
        pane_agent_state_of(value) == Some(PaneAgentState::Blocked) <==> value == "blocked"@,
        pane_agent_state_of(value) == Some(PaneAgentState::Unknown) <==> value == "unknown"@,
{
    reveal_strlit("right");
    reveal_strlit("down");
    reveal_strlit("visible");
    reveal_strlit("recent");
    reveal_strlit("recent-unwrapped");
    reveal_strlit("recent_unwrapped");
    reveal_strlit("detection");
    reveal_strlit("text");
    reveal_strlit("ansi");
    reveal_strlit("idle");
    reveal_strlit("working");
    reveal_strlit("blocked");
    reveal_strlit("done");
    reveal_strlit("unknown");
    assert("right"@.len() == 5 && "down"@.len() == 4);
    assert("visible"@.len() == 7 && "recent"@.len() == 6 && "detection"@.len() == 9);
    assert("recent-unwrapped"@.len() == 16 && "recent_unwrapped"@.len() == 16);
    assert("text"@[0] == 't' && "ansi"@[0] == 'a');
    assert("idle"@.len() == 4 && "idle"@[0] == 'i' && "done"@.len() == 4 && "done"@[0] == 'd');
    assert("working"@.len() == 7 && "working"@[0] == 'w');
    assert("blocked"@.len() == 7 && "blocked"@[0] == 'b');
    assert("unknown"@.len() == 7 && "unknown"@[0] == 'u');
}

/// A name and its value are read back as they were written, whatever the value holds; an
/// empty name is refused, and so is a variable that no shell could hold.
pub proof fn law_an_assignment_is_read_as_it_was_written(name: Seq<char>, value: Seq<char>)
    requires
        !name.contains('='),
    ensures
        name.len() > 0 ==> token_of(name + seq!['='] + value) == Ok::<
            (Seq<char>, Seq<char>),
            Seq<char>,
        >((name, value)),
        name.len() == 0 ==> token_of(name + seq!['='] + value) is Err,
        token_of(name) is Err,
        name.len() > 0 && !name.contains('\0') && !value.contains('\0') ==> variable_of(
            name + seq!['='] + value,
        ) == Ok::<(Seq<char>, Seq<char>), Seq<char>>((name, value)),
        name.len() == 0 || name.contains('\0') || value.contains('\0') ==> variable_of(
            name + seq!['='] + value,
        ) is Err,
        variable_of(name) is Err,
{
    let raw = name + seq!['='] + value;
    crate::laws::words::law_a_text_is_parted_at_the_first_place(raw, '=');
    crate::laws::words::law_a_text_is_parted_at_the_first_place(name, '=');
    assert(raw[name.len() as int] == '=');
    assert(raw.contains('='));
    if let Some((k, v)) = crate::text::split_once(raw, '=') {
        let whole = k.push('=') + v;
        assert(whole == raw);
        if k.len() < name.len() {
            assert(whole[k.len() as int] == '=');
            assert(raw[k.len() as int] == name[k.len() as int]);
        } else if k.len() > name.len() {
            assert(whole[name.len() as int] == k[name.len() as int]);
        }
        assert(k =~= name) by {
            assert forall|i: int| 0 <= i < k.len() implies k[i] == name[i] by {
                assert(whole[i] == k[i] && raw[i] == name[i]);
            }
        }
        assert(v =~= value) by {
            assert forall|i: int| 0 <= i < v.len() implies v[i] == value[i] by {
                let j = k.len() + 1 + i;
                assert(whole[j] == v[i] && raw[j] == value[i]);
            }
        }
    }
}

} // verus!
