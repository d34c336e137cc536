//! What the commands about sessions and terminals promise.

use crate::cli::render::shows;
use crate::cli::sessions::{
    attach_scan, deleted_told, dimension, name_and_json, session_flags, session_options_are,
    session_scan, session_table, session_turn, stopped_told, terminal_turn, SessionFlags,
    SessionInfo, SessionScan, SessionStopped,
};
use crate::cli::tasks::{Task, TerminalSessionOptions, Turn};
use crate::console::Console;
use crate::documents::{json_compact, json_contents};
use crate::json::{at, text_at};
use crate::text::{decimal, has_part, read_unsigned};
use vstd::prelude::*;

verus! {

/// A number of columns or rows is read as it was written, and is never nothing: zero is
/// refused, and so is what is no number or does not fit.
pub proof fn law_a_size_is_read_as_it_was_written(raw: Seq<char>, flag: Seq<char>, n: u16)
    ensures
        n > 0 ==> dimension(decimal(n as nat), flag) == Ok::<u16, Seq<char>>(n),
        dimension(raw, flag) matches Ok(k) ==> k > 0 && read_unsigned(raw, 65535) == Some(k as nat),
        read_unsigned(raw, 65535) is None ==> dimension(raw, flag) == Err::<u16, Seq<char>>(
            flag + " must be an integer between 1 and 65535"@,
        ),
        read_unsigned(raw, 65535) == Some(0nat) ==> dimension(raw, flag) == Err::<u16, Seq<char>>(
            flag + " must be greater than 0"@,
        ),
{
    crate::laws::words::law_a_number_is_read_as_it_was_written(n as nat, 65535);
    if let Some(k) = read_unsigned(raw, 65535) {
        crate::laws::words::law_only_a_number_is_read_as_one(raw, 65535, k);
    }
}

proof fn lemma_words_differ()
    ensures
        "--takeover"@ != "--cols"@,
        "--takeover"@ != "--rows"@,
        "--cols"@ != "--rows"@,
        "--takeover"@ != "help"@,
        "--takeover"@ != "--help"@,
        "--takeover"@ != "-h"@,
        "--cols"@ != "help"@,
        "--rows"@ != "help"@,
        "--json"@ != "help"@,
        "help"@ != "--help"@,
        "help"@ != "-h"@,
        "--help"@ != "-h"@,
        "--cols"@ != "--help"@,
        "--rows"@ != "--help"@,
        "--cols"@ != "-h"@,
        "--rows"@ != "-h"@,
{
    reveal_strlit("--takeover");
    reveal_strlit("--cols");
    reveal_strlit("--rows");
    reveal_strlit("--json");
    reveal_strlit("help");
    reveal_strlit("--help");
    reveal_strlit("-h");
    assert("--takeover"@.len() == 10 && "--cols"@.len() == 6 && "--rows"@.len() == 6);
    assert("--json"@.len() == 6 && "help"@.len() == 4 && "--help"@.len() == 6 && "-h"@.len() == 2);
    assert("--cols"@[2] == 'c' && "--rows"@[2] == 'r' && "--help"@[2] == 'h');
}

proof fn lemma_session_on(
    args: Seq<Seq<char>>,
    tail: Seq<Seq<char>>,
    i: int,
    usage: Seq<char>,
    command: Seq<char>,
    allow: bool,
    f: SessionFlags,
    g: SessionFlags,
)
    requires
        0 <= i <= args.len(),
        session_flags(args, i, usage, command, allow, f) == SessionScan::Flags(g),
    ensures
        session_flags(args + tail, i, usage, command, allow, f) == session_flags(
            args + tail,
            args.len() as int,
            usage,
            command,
            allow,
            g,
        ),
    decreases args.len() - i,
{
    let all = args + tail;
    if i < args.len() {
        assert(all[i] == args[i]);
        if args[i] == "--takeover"@ && allow {
            lemma_session_on(
                args,
                tail,
                i + 1,
                usage,
                command,
                allow,
                SessionFlags { takeover: true, ..f },
                g,
            );
        } else {
            assert(all[i + 1] == args[i + 1]);
            let n = dimension(args[i + 1], args[i])->Ok_0;
            let next = if args[i] == "--cols"@ {
                SessionFlags { cols: n, ..f }
            } else {
                SessionFlags { rows: n, ..f }
            };
            lemma_session_on(args, tail, i + 2, usage, command, allow, next, g);
        }
    }
}

/// A session of a terminal is 120 columns wide and 40 rows high, and takes nothing over,
/// until a flag says otherwise. One more flag changes what it names and nothing else; where
/// a session cannot take over, the flag for it is unknown; help is shown where it is asked
/// for, with success, and anything else is refused.
pub proof fn law_one_more_flag_shapes_a_session(
    args: Seq<Seq<char>>,
    usage: Seq<char>,
    command: Seq<char>,
    allow: bool,
    f: SessionFlags,
    n: u16,
    other: Seq<char>,
)
    requires
        session_scan(args, usage, command, allow) == SessionScan::Flags(f),
        n > 0,
    ensures
        args.len() == 1 ==> f.cols == 120 && f.rows == 40 && !f.takeover,
        session_scan(args + seq!["--cols"@, decimal(n as nat)], usage, command, allow)
            == SessionScan::Flags(SessionFlags { cols: n, rows: f.rows, takeover: f.takeover }),
        session_scan(args + seq!["--rows"@, decimal(n as nat)], usage, command, allow)
            == SessionScan::Flags(SessionFlags { cols: f.cols, rows: n, takeover: f.takeover }),
        allow ==> session_scan(args + seq!["--takeover"@], usage, command, allow)
            == SessionScan::Flags(SessionFlags { cols: f.cols, rows: f.rows, takeover: true }),
        !allow ==> session_scan(args + seq!["--takeover"@], usage, command, allow)
            == SessionScan::Scold(
            seq!["unknown terminal session "@ + command + " option: "@ + "--takeover"@, usage],
            2,
        ),
        session_scan(args + seq!["--help"@], usage, command, allow) == SessionScan::Scold(
            seq![usage],
            0,
        ),
        session_scan(args + seq!["-h"@], usage, command, allow) == SessionScan::Scold(
            seq![usage],
            0,
        ),
        session_scan(args + seq!["--cols"@], usage, command, allow) == SessionScan::Scold(
            seq![usage],
            2,
        ),
        other != "--cols"@ && other != "--rows"@ && other != "--takeover"@ && other != "help"@
            && other != "--help"@ && other != "-h"@ ==> session_scan(
            args + seq![other],
            usage,
            command,
            allow,
        ) == SessionScan::Scold(
            seq!["unknown terminal session "@ + command + " option: "@ + other, usage],
            2,
        ),
{
    reveal_with_fuel(session_flags, 3);
    lemma_words_differ();
    law_a_size_is_read_as_it_was_written("--cols"@, "--cols"@, n);
    law_a_size_is_read_as_it_was_written("--rows"@, "--rows"@, n);
    let m = args.len() as int;
    let start = SessionFlags { cols: 120, rows: 40, takeover: false };
    let cols = seq!["--cols"@, decimal(n as nat)];
    let rows = seq!["--rows"@, decimal(n as nat)];
    lemma_session_on(args, cols, 1, usage, command, allow, start, f);
    assert((args + cols)[m] == "--cols"@ && (args + cols)[m + 1] == decimal(n as nat));
    lemma_session_on(args, rows, 1, usage, command, allow, start, f);
    assert((args + rows)[m] == "--rows"@ && (args + rows)[m + 1] == decimal(n as nat));
    lemma_session_on(args, seq!["--takeover"@], 1, usage, command, allow, start, f);
    assert((args + seq!["--takeover"@])[m] == "--takeover"@);
    lemma_session_on(args, seq!["--help"@], 1, usage, command, allow, start, f);
    assert((args + seq!["--help"@])[m] == "--help"@);
    lemma_session_on(args, seq!["-h"@], 1, usage, command, allow, start, f);
    assert((args + seq!["-h"@])[m] == "-h"@);
    lemma_session_on(args, seq!["--cols"@], 1, usage, command, allow, start, f);
    assert((args + seq!["--cols"@])[m] == "--cols"@);
    lemma_session_on(args, seq![other], 1, usage, command, allow, start, f);
    assert((args + seq![other])[m] == other);
}

/// The options of a session are those that were read, for the target that stands first, and
/// nothing is printed; what is refused is printed on standard error alone, and without a
/// target only how to write the command.
pub proof fn law_a_session_has_the_options_that_were_read(
    args: Seq<Seq<char>>,
    usage: Seq<char>,
    command: Seq<char>,
    allow: bool,
    before: Console,
    after: Console,
    r: Result<TerminalSessionOptions, SessionStopped>,
)
    requires
        session_options_are(args, usage, command, allow, before, after, r),
    ensures
        r matches Ok(o) ==> after == before && args.len() > 0 && o.target@ == args[0] && session_scan(
            args,
            usage,
            command,
            allow,
        ) == SessionScan::Flags(
            SessionFlags { cols: o.cols, rows: o.rows, takeover: o.takeover },
        ),
        session_scan(args, usage, command, allow) is Flags ==> r is Ok,
        after.out_lines() == before.out_lines(),
        args.len() == 0 ==> r == Err::<TerminalSessionOptions, SessionStopped>(
            SessionStopped::Exit(2),
        ) && after.err_lines() == before.err_lines() + seq![usage],
        session_scan(args, usage, command, allow) matches SessionScan::Scold(lines, code)
            ==> after.err_lines() == before.err_lines() + lines && r == Err::<
            TerminalSessionOptions,
            SessionStopped,
        >(SessionStopped::Exit(code)),
{
    assert(before.out_lines() + Seq::<Seq<char>>::empty() =~= before.out_lines());
}

proof fn lemma_attach(args: Seq<Seq<char>>, i: int, usage: Seq<char>, takeover: bool)
    requires
        0 <= i <= args.len(),
        forall|k: int| i <= k < args.len() ==> #[trigger] args[k] == "--takeover"@,
    ensures
        attach_scan(args, i, usage, takeover) == Ok::<bool, (Seq<char>, i32)>(
            takeover || i < args.len(),
        ),
    decreases args.len() - i,
{
    if i < args.len() {
        lemma_attach(args, i + 1, usage, true);
    }
}

proof fn lemma_attach_stops(args: Seq<Seq<char>>, i: int, k: int, usage: Seq<char>, takeover: bool)
    requires
        0 <= i <= k < args.len(),
        args[k] != "--takeover"@,
        forall|j: int| i <= j < k ==> #[trigger] args[j] == "--takeover"@,
    ensures
        attach_scan(args, i, usage, takeover) == (if args[k] == "help"@ || args[k] == "--help"@
            || args[k] == "-h"@ {
            Err::<bool, (Seq<char>, i32)>((usage, 0))
        } else {
            Err((("unknown option: "@ + args[k]), 2))
        }),
    decreases k - i,
{
    if i < k {
        lemma_attach_stops(args, i + 1, k, usage, true);
    }
}

/// An attach is to the terminal that is named, and takes it over exactly where that was
/// asked for, however often. Anything else behind the name is unknown.
pub proof fn law_an_attach_is_to_the_terminal_named(
    args: Seq<Seq<char>>,
    before: Console,
    after: Console,
    turn: Turn,
    k: int,
)
    requires
        terminal_turn(args, before, after, turn),
        args.len() >= 2,
        args[0] == "attach"@,
    ensures
        (forall|j: int| 2 <= j < args.len() ==> #[trigger] args[j] == "--takeover"@) ==> after
            == before && (turn matches Turn::Do(Task::TerminalAttach { terminal_id, takeover })
            && terminal_id@ == args[1] && takeover == (args.len() > 2)),
        2 <= k < args.len() && args[k] != "--takeover"@ && args[k] != "help"@ && args[k]
            != "--help"@ && args[k] != "-h"@ && (forall|j: int|
            2 <= j < k ==> #[trigger] args[j] == "--takeover"@) ==> turn == Turn::Exit(2)
            && after.out_lines() == before.out_lines() && after.err_lines() == before.err_lines()
            + seq!["unknown option: "@ + args[k]],
{
    let rest = args.skip(1);
    let usage = "usage: kvx terminal attach <terminal_id> [--takeover]"@;
    assert(forall|j: int| 0 <= j < rest.len() ==> rest[j] == #[trigger] args[j + 1]);
    assert(before.out_lines() + Seq::<Seq<char>>::empty() =~= before.out_lines());
    if forall|j: int| 2 <= j < args.len() ==> #[trigger] args[j] == "--takeover"@ {
        assert forall|j: int| 1 <= j < rest.len() implies #[trigger] rest[j] == "--takeover"@ by {
            assert(rest[j] == args[j + 1]);
        }
        lemma_attach(rest, 1, usage, false);
    } else if 2 <= k < args.len() && args[k] != "--takeover"@ && (forall|j: int|
        2 <= j < k ==> #[trigger] args[j] == "--takeover"@) {
        assert forall|j: int| 1 <= j < k - 1 implies #[trigger] rest[j] == "--takeover"@ by {
            assert(rest[j] == args[j + 1]);
        }
        lemma_attach_stops(rest, 1, k - 1, usage, false);
    }
}

/// A title is set to what stands behind `set`, and `clear` takes none; and a session is
/// controlled or observed with the options behind its name, and only a controlled one can
/// take over.
pub proof fn law_a_terminal_does_as_it_is_told(
    args: Seq<Seq<char>>,
    before: Console,
    after: Console,
    turn: Turn,
)
    requires
        terminal_turn(args, before, after, turn),
        args.len() >= 2,
    ensures
        args[0] == "title"@ && args[1] == "set"@ && args.len() == 3 ==> after == before && (
        turn matches Turn::Do(Task::TitleSet(t)) && t@ == args[2]),
        args[0] == "title"@ && args[1] == "set"@ && args.len() != 3 ==> turn == Turn::Exit(2),
        args[0] == "title"@ && args[1] == "clear"@ && args.len() == 2 ==> after == before && turn
            == Turn::Do(Task::TitleClear),
        args[0] == "title"@ && args[1] == "clear"@ && args.len() != 2 ==> turn == Turn::Exit(2),
        args[0] == "session"@ && args[1] == "control"@ ==> match session_scan(
            args.skip(2),
            "usage: kvx terminal session control <target> [--takeover] [--cols N] [--rows N]"@,
            "control"@,
            true,
        ) {
            SessionScan::Flags(f) => after == before && (turn matches Turn::Do(
                Task::TerminalControl(o),
            ) && o.target@ == args[2] && o.cols == f.cols && o.rows == f.rows && o.takeover
                == f.takeover),
            SessionScan::Scold(lines, code) => turn == Turn::Exit(code) && after.err_lines()
                == before.err_lines() + lines,
            SessionScan::Fail(message) => turn matches Turn::Fail(m) && m@ == message,
        },
        args[0] == "session"@ && args[1] == "observe"@ ==> match session_scan(
            args.skip(2),
            "usage: kvx terminal session observe <target> [--cols N] [--rows N]"@,
            "observe"@,
            false,
        ) {
            SessionScan::Flags(f) => after == before && (turn matches Turn::Do(
                Task::TerminalObserve(o),
            ) && o.target@ == args[2] && o.cols == f.cols && o.rows == f.rows && o.takeover
                == f.takeover),
            SessionScan::Scold(lines, code) => turn == Turn::Exit(code) && after.err_lines()
                == before.err_lines() + lines,
            SessionScan::Fail(message) => turn matches Turn::Fail(m) && m@ == message,
        },
{
    lemma_groups_differ();
    assert(args.skip(1).skip(1) =~= args.skip(2));
    assert(args.skip(1)[0] == args[1]);
    if args.len() > 2 {
        assert(args.skip(1)[1] == args[2]);
        assert(args.skip(2)[0] == args[2]);
    }
}

proof fn lemma_groups_differ()
    ensures
        "attach"@ != "session"@,
        "attach"@ != "title"@,
        "session"@ != "title"@,
        "control"@ != "observe"@,
        "set"@ != "clear"@,
        "list"@ != "stop"@,
        "list"@ != "attach"@,
        "list"@ != "delete"@,
        "stop"@ != "attach"@,
        "stop"@ != "delete"@,
        "attach"@ != "delete"@,
        "help"@ != "attach"@,
        "help"@ != "session"@,
        "help"@ != "title"@,
        "help"@ != "list"@,
        "help"@ != "stop"@,
        "help"@ != "delete"@,
{
    reveal_strlit("attach");
    reveal_strlit("session");
    reveal_strlit("title");
    reveal_strlit("control");
    reveal_strlit("observe");
    reveal_strlit("set");
    reveal_strlit("clear");
    reveal_strlit("list");
    reveal_strlit("stop");
    reveal_strlit("delete");
    reveal_strlit("help");
    assert("attach"@.len() == 6 && "session"@.len() == 7 && "title"@.len() == 5);
    assert("control"@[0] == 'c' && "observe"@[0] == 'o');
    assert("set"@.len() == 3 && "clear"@.len() == 5);
    assert("list"@[0] == 'l' && "stop"@[0] == 's' && "help"@[0] == 'h' && "help"@.len() == 4);
    assert("list"@.len() == 4 && "stop"@.len() == 4 && "delete"@.len() == 6);
    assert("attach"@[0] == 'a' && "delete"@[0] == 'd');
}

/// A group of commands that is named alone, or with a word it does not know, shows its page
/// on standard error: with success where help was asked for, and with failure otherwise.
pub proof fn law_a_page_is_success_only_where_asked_for(
    args: Seq<Seq<char>>,
    before: Console,
    after: Console,
    turn: Turn,
)
    requires
        terminal_turn(args, before, after, turn) || session_turn(args, before, after, turn),
        args.len() > 0 ==> args[0] != "attach"@ && args[0] != "session"@ && args[0] != "title"@
            && args[0] != "list"@ && args[0] != "stop"@ && args[0] != "delete"@,
    ensures
        after.out_lines() == before.out_lines(),
        after.err_lines().len() > before.err_lines().len(),
        args.len() > 0 && (args[0] == "help"@ || args[0] == "--help"@ || args[0] == "-h"@) <==> turn
            == Turn::Exit(0),
        !(args.len() > 0 && (args[0] == "help"@ || args[0] == "--help"@ || args[0] == "-h"@))
            <==> turn == Turn::Exit(2),
{
    assert(before.out_lines() + Seq::<Seq<char>>::empty() =~= before.out_lines());
}

proof fn lemma_names(args: Seq<Seq<char>>, i: int, name: Option<Seq<char>>, json: bool)
    requires
        0 <= i <= args.len(),
    ensures
        match name_and_json(args, i, name, json) {
            Some((n, j)) => {
                &&& j == (json || exists|k: int| i <= k < args.len() && #[trigger] args[k]
                    == "--json"@)
                &&& name is Some ==> n == name->0 && forall|k: int|
                    i <= k < args.len() ==> #[trigger] args[k] == "--json"@
                &&& name is None ==> exists|k: int|
                    i <= k < args.len() && #[trigger] args[k] == n && n != "--json"@ && forall|j: int|
                        i <= j < args.len() && j != k ==> #[trigger] args[j] == "--json"@
            },
            None => {
                ||| name is None && forall|k: int|
                    i <= k < args.len() ==> #[trigger] args[k] == "--json"@
                ||| name is Some && exists|k: int|
                    i <= k < args.len() && #[trigger] args[k] != "--json"@
                ||| exists|k: int, l: int|
                    i <= k < l < args.len() && #[trigger] args[k] != "--json"@ && #[trigger] args[l]
                        != "--json"@
            },
        },
    decreases args.len() - i,
{
    if i < args.len() {
        if args[i] == "--json"@ {
            lemma_names(args, i + 1, name, true);
        } else if name is None {
            lemma_names(args, i + 1, Some(args[i]), json);
            match name_and_json(args, i + 1, Some(args[i]), json) {
                Some((n, j)) => {
                    assert(args[i] == n && n != "--json"@ && forall|j: int|
                        i <= j < args.len() && j != i ==> #[trigger] args[j] == "--json"@);
                },
                None => {
                    if exists|k: int| i + 1 <= k < args.len() && #[trigger] args[k] != "--json"@ {
                        let k = choose|k: int|
                            i + 1 <= k < args.len() && #[trigger] args[k] != "--json"@;
                        assert(args[i] != "--json"@ && args[k] != "--json"@);
                    }
                },
            }
        } else {
            assert(args[i] != "--json"@);
        }
    }
}

/// A session is stopped or deleted by the one name among the arguments; whether the answer
/// is wanted as it is may be said before the name or behind it. Without a name, or with two,
/// it is refused. Nothing but that is printed, and an attach only ever tells how to write it.
pub proof fn law_a_session_is_stopped_by_its_one_name(
    args: Seq<Seq<char>>,
    before: Console,
    after: Console,
    turn: Turn,
    k: int,
)
    requires
        session_turn(args, before, after, turn),
        args.len() > 0,
        args[0] == "stop"@ || args[0] == "delete"@,
    ensures
        1 <= k < args.len() && args[k] != "--json"@ && (forall|j: int|
            1 <= j < args.len() && j != k ==> #[trigger] args[j] == "--json"@) ==> after == before
            && (args[0] == "stop"@ ==> (turn matches Turn::Do(Task::SessionStop { name, json })
            && name@ == args[k] && json == (args.len() > 2))) && (args[0] == "delete"@ ==> (
        turn matches Turn::Do(Task::SessionDelete { name, json }) && name@ == args[k] && json == (
        args.len() > 2))),
        (forall|j: int| 1 <= j < args.len() ==> #[trigger] args[j] == "--json"@) ==> turn
            == Turn::Exit(2),
        (exists|i: int, j: int|
            1 <= i < j < args.len() && #[trigger] args[i] != "--json"@ && #[trigger] args[j]
                != "--json"@) ==> turn == Turn::Exit(2),
{
    lemma_groups_differ();
    let rest = args.skip(1);
    assert(forall|j: int| 0 <= j < rest.len() ==> rest[j] == #[trigger] args[j + 1]);
    assert(forall|j: int| 1 <= j < args.len() ==> #[trigger] args[j] == rest[j - 1]);
    lemma_names(rest, 0, None, false);
    match name_and_json(rest, 0, None, false) {
        Some((n, json)) => {
            let w = choose|w: int|
                0 <= w < rest.len() && #[trigger] rest[w] == n && n != "--json"@ && forall|j: int|
                    0 <= j < rest.len() && j != w ==> #[trigger] rest[j] == "--json"@;
            assert(args[w + 1] != "--json"@);
            if json {
                let x = choose|x: int| 0 <= x < rest.len() && #[trigger] rest[x] == "--json"@;
                assert(args.len() > 2);
            } else if args.len() > 2 {
                let x = if w == 0 {
                    1int
                } else {
                    0int
                };
                assert(rest[x] == "--json"@);
            }
            if 1 <= k < args.len() && args[k] != "--json"@ && (forall|j: int|
                1 <= j < args.len() && j != k ==> #[trigger] args[j] == "--json"@) {
                assert(w + 1 == k);
            }
            if exists|i: int, j: int|
                1 <= i < j < args.len() && #[trigger] args[i] != "--json"@ && #[trigger] args[j]
                    != "--json"@ {
                let (i, j) = choose|i: int, j: int|
                    1 <= i < j < args.len() && #[trigger] args[i] != "--json"@ && #[trigger] args[j]
                        != "--json"@;
                assert(rest[i - 1] != "--json"@ && rest[j - 1] != "--json"@);
            }
        },
        None => {
            if 1 <= k < args.len() && args[k] != "--json"@ && (forall|j: int|
                1 <= j < args.len() && j != k ==> #[trigger] args[j] == "--json"@) {
                assert(rest[k - 1] != "--json"@);
                if exists|i: int, j: int|
                    0 <= i < j < rest.len() && #[trigger] rest[i] != "--json"@ && #[trigger] rest[j]
                        != "--json"@ {
                    let (i, j) = choose|i: int, j: int|
                        0 <= i < j < rest.len() && #[trigger] rest[i] != "--json"@
                            && #[trigger] rest[j] != "--json"@;
                    assert(args[i + 1] != "--json"@ && args[j + 1] != "--json"@);
                }
            }
        },
    }
}

/// Sessions are listed, and a session is never attached to from here.
pub proof fn law_sessions_are_listed(
    args: Seq<Seq<char>>,
    before: Console,
    after: Console,
    turn: Turn,
)
    requires
        session_turn(args, before, after, turn),
        args.len() > 0,
    ensures
        args[0] == "list"@ && args.len() == 1 ==> after == before && turn == Turn::Do(
            Task::SessionList { json: false },
        ),
        args[0] == "list"@ && args.len() == 2 && args[1] == "--json"@ ==> after == before && turn
            == Turn::Do(Task::SessionList { json: true }),
        args[0] == "list"@ && args.len() == 2 && args[1] != "--json"@ ==> turn == Turn::Exit(2),
        args[0] == "list"@ && args.len() > 2 ==> turn == Turn::Exit(2),
        args[0] == "attach"@ ==> turn is Exit && after.err_lines() == before.err_lines() + seq![
            "usage: kvx session attach <name>"@,
        ],
        args[0] == "attach"@ && args.len() == 1 ==> turn == Turn::Exit(2),
        args[0] == "attach"@ && args.len() > 1 && args[1] == "--help"@ ==> turn == Turn::Exit(0),
{
    lemma_groups_differ();
    if args.len() > 1 {
        assert(args.skip(1)[0] == args[1]);
    }
}

/// The table of sessions has a head and one row for each, in order: its name, whether it
/// runs, its directory and its socket.
pub proof fn law_every_session_has_its_row(sessions: Seq<SessionInfo>, i: int)
    requires
        0 <= i < sessions.len(),
    ensures
        session_table(sessions).len() == sessions.len() + 1,
        ({
            let row = session_table(sessions)[i + 1];
            &&& has_part(row, sessions[i].name@)
            &&& has_part(row, sessions[i].session_dir@)
            &&& has_part(row, sessions[i].socket_path@)
            &&& sessions[i].running ==> has_part(row, "running"@)
            &&& !sessions[i].running ==> has_part(row, "stopped"@)
            &&& sessions[i].name@.is_prefix_of(row)
        }),
        has_part(session_table(sessions)[0], "name"@),
        has_part(session_table(sessions)[0], "status"@),
        has_part(session_table(sessions)[0], "directory"@),
        has_part(session_table(sessions)[0], "socket"@),
{
    broadcast use {
        crate::laws::places::lemma_part_of_either,
        crate::laws::places::lemma_part_of_itself,
        crate::laws::places::lemma_part_of_column,
    };

    let row = session_table(sessions)[i + 1];
    assert(row.subrange(0, sessions[i].name@.len() as int) =~= sessions[i].name@);
}

/// A session that was stopped or deleted is told by its name; one that could not be fails
/// with the reason, under the code for it.
pub proof fn law_a_stopped_session_is_told_by_its_name(
    outcome: Result<String, String>,
    before: Console,
    after: Console,
    r: i32,
)
    ensures
        stopped_told(outcome, before, after, r) ==> match outcome {
            Ok(name) => r == 0 && after.out_lines() == before.out_lines() + seq![
                "stopped session "@ + name@,
            ] && after.err_lines() == before.err_lines(),
            Err(m) => r == 1 && after.out_lines() == before.out_lines() && exists|v:
                serde_json::Value|
                {
                    &&& text_at(at(#[trigger] json_contents(v), "error"@), "code"@) == Some(
                        "session_stop_failed"@,
                    )
                    &&& text_at(at(json_contents(v), "error"@), "message"@) == Some(m@)
                    &&& after.err_lines() == before.err_lines() + seq![json_compact(v)]
                },
        },
        deleted_told(outcome, before, after, r) ==> match outcome {
            Ok(name) => r == 0 && after.out_lines() == before.out_lines() + seq![
                "deleted session "@ + name@,
            ] && after.err_lines() == before.err_lines(),
            Err(m) => r == 1 && after.out_lines() == before.out_lines() && exists|v:
                serde_json::Value|
                {
                    &&& text_at(at(#[trigger] json_contents(v), "error"@), "code"@) == Some(
                        "session_delete_failed"@,
                    )
                    &&& text_at(at(json_contents(v), "error"@), "message"@) == Some(m@)
                    &&& after.err_lines() == before.err_lines() + seq![json_compact(v)]
                },
        },
{
    assert(before.out_lines() + Seq::<Seq<char>>::empty() =~= before.out_lines());
    assert(before.err_lines() + Seq::<Seq<char>>::empty() =~= before.err_lines());
}

} // verus!
