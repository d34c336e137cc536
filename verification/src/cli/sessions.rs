//! `kvx terminal` and `kvx session`.

use crate::cli::render::{complaint, shows, success, Shown};
use crate::cli::run_args::operands_then_json;
use crate::cli::tasks::{Task, TerminalSessionOptions, Turn};
use crate::cli::verbs::{is_help, word_is_help};
use crate::cli::workflow::{failure_shown, print_workflow_cli_error};
use crate::console::Console;
use crate::text::{
    cat2, cat7, opt_text, pad_right, padded_right, parse_unsigned, read_unsigned, str_eq,
    tail_strings, texts,
};
use vstd::prelude::*;

verus! {

broadcast use crate::text::group_texts;

pub const TERMINAL_SESSION_OBSERVE_USAGE: &'static str =
    "usage: kvx terminal session observe <target> [--cols N] [--rows N]";

pub const TERMINAL_SESSION_CONTROL_USAGE: &'static str =
    "usage: kvx terminal session control <target> [--takeover] [--cols N] [--rows N]";

pub const TERMINAL_ATTACH_USAGE: &'static str =
    "usage: kvx terminal attach <terminal_id> [--takeover]";

/// The command is over, having complained line by line.
pub open spec fn scolds(
    before: Console,
    after: Console,
    turn: Turn,
    lines: Seq<Seq<char>>,
    code: i32,
) -> bool {
    turn == Turn::Exit(code) && shows(
        before,
        after,
        code,
        Shown { out: Seq::empty(), err: lines, code },
    )
}

fn scold2(a: &str, b: &str, code: i32, console: &mut Console) -> (r: i32)
    ensures
        shows(
            *old(console),
            *final(console),
            r,
            (Shown { out: Seq::empty(), err: seq![a@, b@], code }),
        ),
{
    console.eprint(a);
    console.eprint(b);
    assert(console.err_lines() =~= old(console).err_lines() + seq![a@, b@]);
    assert(console.out_lines() =~= old(console).out_lines() + Seq::<Seq<char>>::empty());
    code
}

// ---------------------------------------------------------------------------
// terminal session
// ---------------------------------------------------------------------------

/// A number of columns or rows: at least one.
pub open spec fn dimension(raw: Seq<char>, flag: Seq<char>) -> Result<u16, Seq<char>> {
    match read_unsigned(raw, u16::MAX as nat) {
        None => Err(flag + " must be an integer between 1 and 65535"@),
        Some(n) => if n == 0 {
            Err(flag + " must be greater than 0"@)
        } else {
            Ok(n as u16)
        },
    }
}

pub fn parse_terminal_dimension(raw: &str, flag: &str) -> (r: Result<u16, String>)
    ensures
        match (r, dimension(raw@, flag@)) {
            (Ok(n), Ok(want)) => n == want,
            (Err(m), Err(e)) => m@ == e,
            _ => false,
        },
{
    match parse_unsigned(raw, u16::MAX as u64) {
        None => Err(cat2(flag, " must be an integer between 1 and 65535")),
        Some(n) => if n == 0 {
            Err(cat2(flag, " must be greater than 0"))
        } else {
            Ok(n as u16)
        },
    }
}

/// The flags of a terminal session.
pub struct SessionFlags {
    pub cols: u16,
    pub rows: u16,
    pub takeover: bool,
}

/// What reading the flags of a terminal session comes to.
pub enum SessionScan {
    Flags(SessionFlags),
    Scold(Seq<Seq<char>>, i32),
    Fail(Seq<char>),
}

pub open spec fn session_flags(
    args: Seq<Seq<char>>,
    i: int,
    usage: Seq<char>,
    command: Seq<char>,
    allow_takeover: bool,
    f: SessionFlags,
) -> SessionScan
    decreases args.len() - i,
{
    if i >= args.len() {
        SessionScan::Flags(f)
    } else if args[i] == "--takeover"@ && allow_takeover {
        session_flags(
            args,
            i + 1,
            usage,
            command,
            allow_takeover,
            SessionFlags { takeover: true, ..f },
        )
    } else if args[i] == "--cols"@ || args[i] == "--rows"@ {
        if i + 1 >= args.len() {
            SessionScan::Scold(seq![usage], 2)
        } else {
            match dimension(args[i + 1], args[i]) {
                Err(m) => SessionScan::Fail(m),
                Ok(n) => session_flags(
                    args,
                    i + 2,
                    usage,
                    command,
                    allow_takeover,
                    if args[i] == "--cols"@ {
                        SessionFlags { cols: n, ..f }
                    } else {
                        SessionFlags { rows: n, ..f }
                    },
                ),
            }
        }
    } else if is_help(args[i]) {
        SessionScan::Scold(seq![usage], 0)
    } else {
        SessionScan::Scold(
            seq!["unknown terminal session "@ + command + " option: "@ + args[i], usage],
            2,
        )
    }
}

/// What the arguments of a terminal session come to.
pub open spec fn session_scan(
    args: Seq<Seq<char>>,
    usage: Seq<char>,
    command: Seq<char>,
    allow_takeover: bool,
) -> SessionScan {
    if args.len() == 0 {
        SessionScan::Scold(seq![usage], 2)
    } else if is_help(args[0]) {
        SessionScan::Scold(seq![usage], 0)
    } else {
        session_flags(
            args,
            1,
            usage,
            command,
            allow_takeover,
            SessionFlags { cols: 120, rows: 40, takeover: false },
        )
    }
}

/// How parsing the arguments of a terminal session ends without one.
#[derive(Debug, PartialEq, Eq)]
pub enum SessionStopped {
    Exit(i32),
    Fail(String),
}

pub open spec fn session_options_are(
    args: Seq<Seq<char>>,
    usage: Seq<char>,
    command: Seq<char>,
    allow_takeover: bool,
    before: Console,
    after: Console,
    r: Result<TerminalSessionOptions, SessionStopped>,
) -> bool {
    match session_scan(args, usage, command, allow_takeover) {
        SessionScan::Flags(f) => after == before && (r matches Ok(o) && o.target@ == args[0]
            && o.cols == f.cols && o.rows == f.rows && o.takeover == f.takeover),
        SessionScan::Scold(lines, code) => r == Err::<TerminalSessionOptions, SessionStopped>(
            SessionStopped::Exit(code),
        ) && shows(before, after, code, Shown { out: Seq::empty(), err: lines, code }),
        SessionScan::Fail(message) => after == before && (r matches Err(SessionStopped::Fail(m))
            && m@ == message),
    }
}

pub fn parse_terminal_session_options(
    args: &[String],
    usage: &str,
    command: &str,
    allow_takeover: bool,
    console: &mut Console,
) -> (r: Result<TerminalSessionOptions, SessionStopped>)
    ensures
        session_options_are(
            texts(args@),
            usage@,
            command@,
            allow_takeover,
            *old(console),
            *final(console),
            r,
        ),
{
    let ghost all = texts(args@);
    if args.len() == 0 {
        return Err(SessionStopped::Exit(console.complain(usage, 2)));
    }
    if word_is_help(args[0].as_str()) {
        return Err(SessionStopped::Exit(console.complain(usage, 0)));
    }
    let mut cols: u16 = 120;
    let mut rows: u16 = 40;
    let mut takeover: bool = false;
    let mut i: usize = 1;
    while i < args.len()
        invariant
            1 <= i <= args@.len() + 1,
            all == texts(args@),
            args@.len() > 0,
            !is_help(all[0]),
            *console == *old(console),
            session_flags(
                all,
                1,
                usage@,
                command@,
                allow_takeover,
                SessionFlags { cols: 120, rows: 40, takeover: false },
            ) == session_flags(
                all,
                i as int,
                usage@,
                command@,
                allow_takeover,
                SessionFlags { cols, rows, takeover },
            ),
        decreases args.len() - i,
    {
        let arg = args[i].as_str();
        assert(all[i as int] == arg@);
        if str_eq(arg, "--takeover") && allow_takeover {
            takeover = true;
            i = i + 1;
        } else if str_eq(arg, "--cols") || str_eq(arg, "--rows") {
            if args.len() - i <= 1 {
                return Err(SessionStopped::Exit(console.complain(usage, 2)));
            }
            assert(all[i + 1] == args@[i + 1]@);
            match parse_terminal_dimension(args[i + 1].as_str(), arg) {
                Err(m) => {
                    return Err(SessionStopped::Fail(m));
                },
                Ok(n) => {
                    if str_eq(arg, "--cols") {
                        cols = n;
                    } else {
                        rows = n;
                    }
                },
            }
            i = i + 2;
        } else if word_is_help(arg) {
            return Err(SessionStopped::Exit(console.complain(usage, 0)));
        } else {
            let line = crate::text::cat4("unknown terminal session ", command, " option: ", arg);
            return Err(SessionStopped::Exit(scold2(line.as_str(), usage, 2, console)));
        }
    }
    Ok(TerminalSessionOptions { target: args[0].clone(), cols, rows, takeover })
}

// ---------------------------------------------------------------------------
// attach
// ---------------------------------------------------------------------------

/// What reading the options of an attach comes to: whether to take over, or the
/// complaint and the code.
pub open spec fn attach_scan(args: Seq<Seq<char>>, i: int, usage: Seq<char>, takeover: bool) -> Result<
    bool,
    (Seq<char>, i32),
>
    decreases args.len() - i,
{
    if i >= args.len() {
        Ok(takeover)
    } else if args[i] == "--takeover"@ {
        attach_scan(args, i + 1, usage, true)
    } else if is_help(args[i]) {
        Err((usage, 0))
    } else {
        Err(("unknown option: "@ + args[i], 2))
    }
}

pub open spec fn attach_target_is(
    args: Seq<Seq<char>>,
    usage: Seq<char>,
    before: Console,
    after: Console,
    r: Result<(String, bool), i32>,
) -> bool {
    if args.len() == 0 {
        r == Err::<(String, bool), i32>(2) && shows(before, after, 2, complaint(usage, 2))
    } else {
        match attach_scan(args, 1, usage, false) {
            Ok(takeover) => after == before && (r matches Ok((target, t)) && target@ == args[0] && t
                == takeover),
            Err((line, code)) => r == Err::<(String, bool), i32>(code) && shows(
                before,
                after,
                code,
                complaint(line, code),
            ),
        }
    }
}

pub fn parse_attach_target(args: &[String], usage: &str, console: &mut Console) -> (r: Result<
    (String, bool),
    i32,
>)
    ensures
        attach_target_is(texts(args@), usage@, *old(console), *final(console), r),
{
    if args.len() == 0 {
        return Err(console.complain(usage, 2));
    }
    let ghost all = texts(args@);
    let mut takeover = false;
    let mut i: usize = 1;
    while i < args.len()
        invariant
            1 <= i <= args@.len(),
            all == texts(args@),
            *console == *old(console),
            attach_scan(all, 1, usage@, false) == attach_scan(all, i as int, usage@, takeover),
        decreases args.len() - i,
    {
        let arg = args[i].as_str();
        assert(all[i as int] == arg@);
        if str_eq(arg, "--takeover") {
            takeover = true;
        } else if word_is_help(arg) {
            return Err(console.complain(usage, 0));
        } else {
            return Err(console.complain(cat2("unknown option: ", arg).as_str(), 2));
        }
        i = i + 1;
    }
    Ok((args[0].clone(), takeover))
}

// ---------------------------------------------------------------------------
// terminal
// ---------------------------------------------------------------------------

pub open spec fn terminal_help() -> Seq<Seq<char>> {
    seq![
        "kvx terminal commands:"@,
        "  kvx terminal attach <terminal_id> [--takeover]"@,
        "  kvx terminal session control <target> [--takeover] [--cols N] [--rows N]"@,
        "  kvx terminal session observe <target> [--cols N] [--rows N]"@,
        "  kvx terminal title set <title>"@,
        "  kvx terminal title clear"@,
        "  detach from direct attach with ctrl+b q; send literal ctrl+b with ctrl+b ctrl+b"@,
    ]
}

fn print_terminal_help(code: i32, console: &mut Console) -> (r: Turn)
    ensures
        scolds(*old(console), *final(console), r, terminal_help(), code),
{
    console.eprint("kvx terminal commands:");
    console.eprint("  kvx terminal attach <terminal_id> [--takeover]");
    console.eprint("  kvx terminal session control <target> [--takeover] [--cols N] [--rows N]");
    console.eprint("  kvx terminal session observe <target> [--cols N] [--rows N]");
    console.eprint("  kvx terminal title set <title>");
    console.eprint("  kvx terminal title clear");
    console.eprint(
        "  detach from direct attach with ctrl+b q; send literal ctrl+b with ctrl+b ctrl+b",
    );
    assert(console.err_lines() =~= old(console).err_lines() + terminal_help());
    assert(console.out_lines() =~= old(console).out_lines() + Seq::<Seq<char>>::empty());
    Turn::Exit(code)
}

/// The code for a page of help: success only where it was asked for.
pub open spec fn help_code(args: Seq<Seq<char>>, i: int) -> i32 {
    if args.len() > i && is_help(args[i]) {
        0
    } else {
        2
    }
}

/// What `kvx terminal session` does with its arguments.
pub open spec fn terminal_session_turn(
    args: Seq<Seq<char>>,
    before: Console,
    after: Console,
    turn: Turn,
) -> bool {
    if args.len() > 0 && args[0] == "control"@ {
        match session_scan(args.skip(1), TERMINAL_SESSION_CONTROL_USAGE@, "control"@, true) {
            SessionScan::Flags(f) => after == before && (turn matches Turn::Do(
                Task::TerminalControl(o),
            ) && o.target@ == args[1] && o.cols == f.cols && o.rows == f.rows && o.takeover
                == f.takeover),
            SessionScan::Scold(lines, code) => scolds(before, after, turn, lines, code),
            SessionScan::Fail(message) => after == before && (turn matches Turn::Fail(m) && m@
                == message),
        }
    } else if args.len() > 0 && args[0] == "observe"@ {
        match session_scan(args.skip(1), TERMINAL_SESSION_OBSERVE_USAGE@, "observe"@, false) {
            SessionScan::Flags(f) => after == before && (turn matches Turn::Do(
                Task::TerminalObserve(o),
            ) && o.target@ == args[1] && o.cols == f.cols && o.rows == f.rows && o.takeover
                == f.takeover),
            SessionScan::Scold(lines, code) => scolds(before, after, turn, lines, code),
            SessionScan::Fail(message) => after == before && (turn matches Turn::Fail(m) && m@
                == message),
        }
    } else {
        scolds(
            before,
            after,
            turn,
            seq![TERMINAL_SESSION_CONTROL_USAGE@, TERMINAL_SESSION_OBSERVE_USAGE@],
            help_code(args, 0),
        )
    }
}

pub fn terminal_session(args: &[String], console: &mut Console) -> (r: Turn)
    ensures
        terminal_session_turn(texts(args@), *old(console), *final(console), r),
{
    if args.len() > 0 && (str_eq(args[0].as_str(), "control") || str_eq(
        args[0].as_str(),
        "observe",
    )) {
        let control = str_eq(args[0].as_str(), "control");
        let rest = tail_strings(args, 1);
        assert(texts(rest@) =~= texts(args@).skip(1));
        let parsed = if control {
            parse_terminal_session_options(
                rest.as_slice(),
                TERMINAL_SESSION_CONTROL_USAGE,
                "control",
                true,
                console,
            )
        } else {
            parse_terminal_session_options(
                rest.as_slice(),
                TERMINAL_SESSION_OBSERVE_USAGE,
                "observe",
                false,
                console,
            )
        };
        return match parsed {
            Ok(options) => if control {
                Turn::Do(Task::TerminalControl(options))
            } else {
                Turn::Do(Task::TerminalObserve(options))
            },
            Err(SessionStopped::Exit(code)) => Turn::Exit(code),
            Err(SessionStopped::Fail(m)) => Turn::Fail(m),
        };
    }
    let code: i32 = if args.len() > 0 && word_is_help(args[0].as_str()) {
        0
    } else {
        2
    };
    Turn::Exit(
        scold2(TERMINAL_SESSION_CONTROL_USAGE, TERMINAL_SESSION_OBSERVE_USAGE, code, console),
    )
}

/// What `kvx terminal title` does with its arguments.
pub open spec fn terminal_title_turn(
    args: Seq<Seq<char>>,
    before: Console,
    after: Console,
    turn: Turn,
) -> bool {
    if args.len() > 0 && args[0] == "set"@ {
        if args.len() == 2 {
            after == before && (turn matches Turn::Do(Task::TitleSet(t)) && t@ == args[1])
        } else {
            scolds(before, after, turn, seq!["usage: kvx terminal title set <title>"@], 2)
        }
    } else if args.len() > 0 && args[0] == "clear"@ {
        if args.len() == 1 {
            after == before && turn == Turn::Do(Task::TitleClear)
        } else {
            scolds(before, after, turn, seq!["usage: kvx terminal title clear"@], 2)
        }
    } else {
        scolds(
            before,
            after,
            turn,
            seq!["usage: kvx terminal title set <title>"@, "       kvx terminal title clear"@],
            help_code(args, 0),
        )
    }
}

pub fn terminal_title(args: &[String], console: &mut Console) -> (r: Turn)
    ensures
        terminal_title_turn(texts(args@), *old(console), *final(console), r),
{
    if args.len() > 0 && str_eq(args[0].as_str(), "set") {
        return if args.len() == 2 {
            Turn::Do(Task::TitleSet(args[1].clone()))
        } else {
            Turn::Exit(console.complain("usage: kvx terminal title set <title>", 2))
        };
    }
    if args.len() > 0 && str_eq(args[0].as_str(), "clear") {
        return if args.len() == 1 {
            Turn::Do(Task::TitleClear)
        } else {
            Turn::Exit(console.complain("usage: kvx terminal title clear", 2))
        };
    }
    let code: i32 = if args.len() > 0 && word_is_help(args[0].as_str()) {
        0
    } else {
        2
    };
    Turn::Exit(
        scold2(
            "usage: kvx terminal title set <title>",
            "       kvx terminal title clear",
            code,
            console,
        ),
    )
}

/// What `kvx terminal` does with its arguments.
pub open spec fn terminal_turn(
    args: Seq<Seq<char>>,
    before: Console,
    after: Console,
    turn: Turn,
) -> bool {
    if args.len() > 0 && args[0] == "attach"@ {
        let rest = args.skip(1);
        if rest.len() == 0 {
            scolds(before, after, turn, seq![TERMINAL_ATTACH_USAGE@], 2)
        } else {
            match attach_scan(rest, 1, TERMINAL_ATTACH_USAGE@, false) {
                Ok(takeover) => after == before && (turn matches Turn::Do(
                    Task::TerminalAttach { terminal_id, takeover: t },
                ) && terminal_id@ == rest[0] && t == takeover),
                Err((line, code)) => scolds(before, after, turn, seq![line], code),
            }
        }
    } else if args.len() > 0 && args[0] == "session"@ {
        terminal_session_turn(args.skip(1), before, after, turn)
    } else if args.len() > 0 && args[0] == "title"@ {
        terminal_title_turn(args.skip(1), before, after, turn)
    } else {
        scolds(before, after, turn, terminal_help(), help_code(args, 0))
    }
}

pub fn run_terminal_command(args: &[String], console: &mut Console) -> (r: Turn)
    ensures
        terminal_turn(texts(args@), *old(console), *final(console), r),
{
    if args.len() == 0 {
        return print_terminal_help(2, console);
    }
    let rest = tail_strings(args, 1);
    assert(texts(rest@) =~= texts(args@).skip(1));
    let word = args[0].as_str();
    if str_eq(word, "attach") {
        match parse_attach_target(rest.as_slice(), TERMINAL_ATTACH_USAGE, console) {
            Ok((terminal_id, takeover)) => Turn::Do(Task::TerminalAttach { terminal_id, takeover }),
            Err(code) => Turn::Exit(code),
        }
    } else if str_eq(word, "session") {
        terminal_session(rest.as_slice(), console)
    } else if str_eq(word, "title") {
        terminal_title(rest.as_slice(), console)
    } else if word_is_help(word) {
        print_terminal_help(0, console)
    } else {
        print_terminal_help(2, console)
    }
}

// ---------------------------------------------------------------------------
// session
// ---------------------------------------------------------------------------

pub const SESSION_LIST_USAGE: &'static str = "usage: kvx session list [--json]";

pub const SESSION_STOP_USAGE: &'static str = "usage: kvx session stop <name> [--json]";

pub const SESSION_DELETE_USAGE: &'static str = "usage: kvx session delete <name> [--json]";

pub const SESSION_ATTACH_USAGE: &'static str = "usage: kvx session attach <name>";

pub fn parse_session_json_only(args: &[String], usage: &str, console: &mut Console) -> (r: Result<
    bool,
    i32,
>)
    ensures
        match operands_then_json(texts(args@), 0) {
            Some(json) => r == Ok::<bool, i32>(json) && *final(console) == *old(console),
            None => r == Err::<bool, i32>(2) && shows(
                *old(console),
                *final(console),
                2,
                complaint(usage@, 2),
            ),
        },
{
    match crate::cli::run_args::json_after(args, 0) {
        Some(json) => Ok(json),
        None => Err(console.complain(usage, 2)),
    }
}

/// One name and, anywhere, `--json`: the name and whether JSON is wanted.
pub open spec fn name_and_json(
    args: Seq<Seq<char>>,
    i: int,
    name: Option<Seq<char>>,
    json: bool,
) -> Option<(Seq<char>, bool)>
    decreases args.len() - i,
{
    if i >= args.len() {
        match name {
            Some(n) => Some((n, json)),
            None => None,
        }
    } else if args[i] == "--json"@ {
        name_and_json(args, i + 1, name, true)
    } else if name is None {
        name_and_json(args, i + 1, Some(args[i]), json)
    } else {
        None
    }
}

pub fn parse_session_name_and_json(args: &[String], usage: &str, console: &mut Console) -> (r:
    Result<(String, bool), i32>)
    ensures
        match name_and_json(texts(args@), 0, None, false) {
            Some((name, json)) => *final(console) == *old(console) && (r matches Ok((n, j)) && n@
                == name && j == json),
            None => r == Err::<(String, bool), i32>(2) && shows(
                *old(console),
                *final(console),
                2,
                complaint(usage@, 2),
            ),
        },
{
    let ghost all = texts(args@);
    let mut name: Option<String> = None;
    let mut json = false;
    let mut i: usize = 0;
    while i < args.len()
        invariant
            i <= args@.len(),
            all == texts(args@),
            *console == *old(console),
            name_and_json(all, 0, None, false) == name_and_json(
                all,
                i as int,
                opt_text(name),
                json,
            ),
        decreases args.len() - i,
    {
        let arg = args[i].as_str();
        assert(all[i as int] == arg@);
        if str_eq(arg, "--json") {
            json = true;
        } else if name.is_none() {
            name = Some(args[i].clone());
        } else {
            return Err(console.complain(usage, 2));
        }
        i = i + 1;
    }
    match name {
        Some(n) => Ok((n, json)),
        None => Err(console.complain(usage, 2)),
    }
}

pub open spec fn session_help() -> Seq<Seq<char>> {
    seq![
        "kvx session commands:"@,
        "  kvx session list [--json]"@,
        "  kvx session attach <name>"@,
        "  kvx session stop <name> [--json]"@,
        "  kvx session delete <name> [--json]"@,
        "  use 'default' as <name> to target the default session for stop"@,
    ]
}

fn print_session_help(code: i32, console: &mut Console) -> (r: Turn)
    ensures
        scolds(*old(console), *final(console), r, session_help(), code),
{
    console.eprint("kvx session commands:");
    console.eprint("  kvx session list [--json]");
    console.eprint("  kvx session attach <name>");
    console.eprint("  kvx session stop <name> [--json]");
    console.eprint("  kvx session delete <name> [--json]");
    console.eprint("  use 'default' as <name> to target the default session for stop");
    assert(console.err_lines() =~= old(console).err_lines() + session_help());
    assert(console.out_lines() =~= old(console).out_lines() + Seq::<Seq<char>>::empty());
    Turn::Exit(code)
}

/// What `kvx session` does with its arguments.
pub open spec fn session_turn(
    args: Seq<Seq<char>>,
    before: Console,
    after: Console,
    turn: Turn,
) -> bool {
    let rest = args.skip(1);
    if args.len() > 0 && args[0] == "list"@ {
        match operands_then_json(rest, 0) {
            Some(json) => after == before && turn == Turn::Do(Task::SessionList { json }),
            None => scolds(before, after, turn, seq![SESSION_LIST_USAGE@], 2),
        }
    } else if args.len() > 0 && args[0] == "attach"@ {
        scolds(before, after, turn, seq![SESSION_ATTACH_USAGE@], help_code(args, 1))
    } else if args.len() > 0 && args[0] == "stop"@ {
        match name_and_json(rest, 0, None, false) {
            Some((name, json)) => after == before && (turn matches Turn::Do(
                Task::SessionStop { name: n, json: j },
            ) && n@ == name && j == json),
            None => scolds(before, after, turn, seq![SESSION_STOP_USAGE@], 2),
        }
    } else if args.len() > 0 && args[0] == "delete"@ {
        match name_and_json(rest, 0, None, false) {
            Some((name, json)) => after == before && (turn matches Turn::Do(
                Task::SessionDelete { name: n, json: j },
            ) && n@ == name && j == json),
            None => scolds(before, after, turn, seq![SESSION_DELETE_USAGE@], 2),
        }
    } else {
        scolds(before, after, turn, session_help(), help_code(args, 0))
    }
}

pub fn run_session_command(args: &[String], console: &mut Console) -> (r: Turn)
    ensures
        session_turn(texts(args@), *old(console), *final(console), r),
{
    if args.len() == 0 {
        return print_session_help(2, console);
    }
    let rest = tail_strings(args, 1);
    assert(texts(rest@) =~= texts(args@).skip(1));
    let word = args[0].as_str();
    if str_eq(word, "list") {
        match parse_session_json_only(rest.as_slice(), SESSION_LIST_USAGE, console) {
            Ok(json) => Turn::Do(Task::SessionList { json }),
            Err(code) => Turn::Exit(code),
        }
    } else if str_eq(word, "attach") {
        let code: i32 = if args.len() > 1 && word_is_help(args[1].as_str()) {
            0
        } else {
            2
        };
        Turn::Exit(console.complain(SESSION_ATTACH_USAGE, code))
    } else if str_eq(word, "stop") {
        match parse_session_name_and_json(rest.as_slice(), SESSION_STOP_USAGE, console) {
            Ok((name, json)) => Turn::Do(Task::SessionStop { name, json }),
            Err(code) => Turn::Exit(code),
        }
    } else if str_eq(word, "delete") {
        match parse_session_name_and_json(rest.as_slice(), SESSION_DELETE_USAGE, console) {
            Ok((name, json)) => Turn::Do(Task::SessionDelete { name, json }),
            Err(code) => Turn::Exit(code),
        }
    } else if word_is_help(word) {
        print_session_help(0, console)
    } else {
        print_session_help(2, console)
    }
}

/// A session of the server.
#[derive(Debug, PartialEq, Eq)]
pub struct SessionInfo {
    pub name: String,
    pub running: bool,
    pub session_dir: String,
    pub socket_path: String,
}

pub open spec fn session_row(
    name: Seq<char>,
    status: Seq<char>,
    dir: Seq<char>,
    socket: Seq<char>,
) -> Seq<char> {
    pad_right(name, 20) + " "@ + pad_right(status, 8) + " "@ + pad_right(dir, 48) + " "@ + socket
}

/// The table of sessions.
pub open spec fn session_table(sessions: Seq<SessionInfo>) -> Seq<Seq<char>> {
    seq![session_row("name"@, "status"@, "directory"@, "socket"@)] + sessions.map_values(
        |s: SessionInfo|
            session_row(
                s.name@,
                if s.running {
                    "running"@
                } else {
                    "stopped"@
                },
                s.session_dir@,
                s.socket_path@,
            ),
    )
}

fn format_session_row(name: &str, status: &str, dir: &str, socket: &str) -> (r: String)
    ensures
        r@ == session_row(name@, status@, dir@, socket@),
{
    cat7(
        padded_right(name, 20).as_str(),
        " ",
        padded_right(status, 8).as_str(),
        " ",
        padded_right(dir, 48).as_str(),
        " ",
        socket,
    )
}

pub fn print_session_table(sessions: &Vec<SessionInfo>, console: &mut Console) -> (r: i32)
    ensures
        shows(*old(console), *final(console), r, success(session_table(sessions@))),
{
    let ghost all = session_table(sessions@);
    console.print(format_session_row("name", "status", "directory", "socket").as_str());
    let mut i: usize = 0;
    assert(console.out_lines() =~= old(console).out_lines() + all.take(1));
    while i < sessions.len()
        invariant
            i <= sessions@.len(),
            all == session_table(sessions@),
            console.err_lines() == old(console).err_lines(),
            console.out_lines() == old(console).out_lines() + all.take(i + 1),
        decreases sessions@.len() - i,
    {
        let s = &sessions[i];
        let status = if s.running {
            "running"
        } else {
            "stopped"
        };
        console.print(
            format_session_row(
                s.name.as_str(),
                status,
                s.session_dir.as_str(),
                s.socket_path.as_str(),
            ).as_str(),
        );
        assert(console.out_lines() =~= old(console).out_lines() + all.take(i + 2));
        i = i + 1;
    }
    assert(all.take(all.len() as int) =~= all);
    assert(console.err_lines() =~= old(console).err_lines() + Seq::<Seq<char>>::empty());
    0
}

/// What is told of a session that was stopped, or could not be.
pub open spec fn stopped_told(
    outcome: Result<String, String>,
    before: Console,
    after: Console,
    r: i32,
) -> bool {
    match outcome {
        Ok(name) => shows(before, after, r, success(seq!["stopped session "@ + name@])),
        Err(m) => failure_shown(before, after, r, "session_stop_failed"@, m@, true),
    }
}

/// Tells that a session was stopped.
pub fn session_stopped(outcome: Result<String, String>, console: &mut Console) -> (r: i32)
    ensures
        stopped_told(outcome, *old(console), *final(console), r),
{
    match outcome {
        Ok(name) => {
            let mut out: Vec<String> = Vec::new();
            out.push(cat2("stopped session ", name.as_str()));
            assert(texts(out@) =~= seq!["stopped session "@ + name@]);
            console.succeed(&out)
        },
        Err(m) => print_workflow_cli_error("session_stop_failed", m.as_str(), console),
    }
}

/// What is told of a session that was deleted, or could not be.
pub open spec fn deleted_told(
    outcome: Result<String, String>,
    before: Console,
    after: Console,
    r: i32,
) -> bool {
    match outcome {
        Ok(name) => shows(before, after, r, success(seq!["deleted session "@ + name@])),
        Err(m) => failure_shown(before, after, r, "session_delete_failed"@, m@, true),
    }
}

/// Tells that a session was deleted.
pub fn session_deleted(outcome: Result<String, String>, console: &mut Console) -> (r: i32)
    ensures
        deleted_told(outcome, *old(console), *final(console), r),
{
    match outcome {
        Ok(name) => {
            let mut out: Vec<String> = Vec::new();
            out.push(cat2("deleted session ", name.as_str()));
            assert(texts(out@) =~= seq!["deleted session "@ + name@]);
            console.succeed(&out)
        },
        Err(m) => print_workflow_cli_error("session_delete_failed", m.as_str(), console),
    }
}

} // verus!
