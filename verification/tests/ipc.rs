//! The socket of the server.

use karvex::ipc::{
    check_socket_path_len, check_socket_path_len_against, is_connection_closed_error,
    poll_local_stream_read, poll_named_pipe_read, prepare_socket_path, probe_stream_closed,
    removal_failure, remove_socket_file_if_owned, stale_socket_connect_error, IoKind,
    LocalStreamRead, SocketFile, SocketFileIdentity, SocketPath, LINUX_SUN_PATH_LIMIT,
    MACOS_SUN_PATH_LIMIT,
};

#[test]
fn macos_and_linux_limits_match_the_documented_values() {
    assert_eq!(MACOS_SUN_PATH_LIMIT, 104);
    assert_eq!(LINUX_SUN_PATH_LIMIT, 108);
}

#[test]
fn a_path_at_or_under_the_limit_passes() {
    let path = "a".repeat(104);
    assert!(check_socket_path_len_against(&path, MACOS_SUN_PATH_LIMIT).is_ok());
    let path = "a".repeat(108);
    assert!(check_socket_path_len_against(&path, LINUX_SUN_PATH_LIMIT).is_ok());
}

#[test]
fn a_path_one_byte_over_the_macos_limit_fails_with_the_path_length_and_limit() {
    let path = "a".repeat(105);
    let err = check_socket_path_len_against(&path, MACOS_SUN_PATH_LIMIT).expect_err("over limit");
    assert!(err.contains("105 bytes"), "{err}");
    assert!(err.contains("104"), "{err}");
    assert!(err.contains("XDG_CONFIG_HOME"), "{err}");
    assert!(err.contains("--session"), "{err}");
}

#[test]
fn a_path_one_byte_over_the_linux_limit_fails() {
    let path = "a".repeat(109);
    let err = check_socket_path_len_against(&path, LINUX_SUN_PATH_LIMIT).expect_err("over limit");
    assert!(err.contains("109 bytes"), "{err}");
    assert!(err.contains("108"), "{err}");
}

#[test]
fn a_realistic_long_xdg_config_home_and_session_name_is_caught() {
    let deep = "x".repeat(80);
    let path = format!(
        "/home/user/.config-{deep}/karvex/sessions/a-fairly-long-session-name/karvex-client.sock"
    );
    assert!(
        check_socket_path_len_against(&path, MACOS_SUN_PATH_LIMIT).is_err(),
        "this path is a realistic overflow and must be caught before bind/connect"
    );
}

#[test]
fn a_typical_short_path_is_never_flagged() {
    let path = "/home/user/.config/karvex/karvex-client.sock";
    assert!(check_socket_path_len_against(path, MACOS_SUN_PATH_LIMIT).is_ok());
}

#[test]
fn stale_socket_connect_errors_keep_unix_would_block_strict() {
    for windows in [false, true] {
        assert!(stale_socket_connect_error(IoKind::ConnectionRefused, windows));
        assert!(stale_socket_connect_error(IoKind::NotFound, windows));
        assert!(stale_socket_connect_error(IoKind::TimedOut, windows));
        assert_eq!(
            stale_socket_connect_error(IoKind::WouldBlock, windows),
            windows
        );
    }
}

#[test]
fn remove_socket_file_if_owned_compares_windows_marker_contents() {
    let marker = |text: &str| SocketFileIdentity::Windows {
        marker: text.as_bytes().to_vec(),
    };
    assert_eq!(
        remove_socket_file_if_owned(Ok(marker("marker-bb")), &marker("marker-aa")),
        SocketFile::Leave
    );
    assert_eq!(
        remove_socket_file_if_owned(Ok(marker("marker-aa")), &marker("marker-aa")),
        SocketFile::Remove
    );
}

#[test]
fn idle_named_pipe_peer_is_not_treated_as_closed() {
    assert_eq!(
        poll_named_pipe_read(Some(0), Ok(0)),
        Ok(LocalStreamRead::Pending)
    );
}

#[test]
fn disconnected_named_pipe_peer_is_treated_as_closed() {
    assert_eq!(
        poll_named_pipe_read(None, Ok(0)),
        Ok(LocalStreamRead::Closed)
    );
}

#[test]
fn a_path_is_measured_in_bytes() {
    let path = "é".repeat(54);
    assert!(check_socket_path_len(&path, false).is_ok());
    let err = check_socket_path_len(&path, true).expect_err("over limit");
    assert!(err.contains("108 bytes"), "{err}");
    let path = "a".repeat(104);
    assert!(check_socket_path_len(&path, true).is_ok());
    assert!(check_socket_path_len(&path, false).is_ok());
}

#[test]
fn a_socket_that_answers_is_never_taken_over() {
    assert_eq!(prepare_socket_path(None, false), SocketPath::Ready);
    assert_eq!(prepare_socket_path(Some(Ok(())), false), SocketPath::Busy);
    assert_eq!(
        prepare_socket_path(Some(Err(IoKind::ConnectionRefused)), false),
        SocketPath::RemoveStale
    );
    assert_eq!(
        prepare_socket_path(Some(Err(IoKind::WouldBlock)), false),
        SocketPath::Fail(IoKind::WouldBlock)
    );
    assert_eq!(removal_failure(Err(IoKind::NotFound)), None);
    assert_eq!(removal_failure(Err(IoKind::Other)), Some(IoKind::Other));
    assert_eq!(removal_failure(Ok(())), None);
}

#[test]
fn a_stream_is_closed_by_its_end_or_a_broken_connection() {
    assert_eq!(poll_local_stream_read(Ok(0)), Ok(LocalStreamRead::Closed));
    assert_eq!(poll_local_stream_read(Ok(3)), Ok(LocalStreamRead::Data));
    assert_eq!(
        poll_local_stream_read(Err(IoKind::WouldBlock)),
        Ok(LocalStreamRead::Pending)
    );
    assert_eq!(
        poll_local_stream_read(Err(IoKind::Other)),
        Err(IoKind::Other)
    );
    assert!(is_connection_closed_error(IoKind::BrokenPipe));
    assert!(!is_connection_closed_error(IoKind::TimedOut));
    assert_eq!(
        poll_named_pipe_read(Some(1), Err(IoKind::ConnectionReset)),
        Ok(LocalStreamRead::Closed)
    );
    assert_eq!(probe_stream_closed(Ok(0)), Ok(true));
    assert_eq!(probe_stream_closed(Ok(1)), Ok(true));
    assert_eq!(
        probe_stream_closed(Err(IoKind::ConnectionReset)),
        Ok(true)
    );
    assert_eq!(probe_stream_closed(Err(IoKind::WouldBlock)), Ok(false));
}

#[test]
fn another_ones_socket_file_is_left_alone() {
    let file = |ino: u64| SocketFileIdentity::Unix { dev: 1, ino };
    assert_eq!(
        remove_socket_file_if_owned(Ok(file(7)), &file(7)),
        SocketFile::Remove
    );
    assert_eq!(
        remove_socket_file_if_owned(Ok(file(8)), &file(7)),
        SocketFile::Leave
    );
    assert_eq!(
        remove_socket_file_if_owned(Err(IoKind::NotFound), &file(7)),
        SocketFile::Leave
    );
    assert_eq!(
        remove_socket_file_if_owned(Err(IoKind::Other), &file(7)),
        SocketFile::Fail(IoKind::Other)
    );
}
