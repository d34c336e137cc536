//! Invocations under the name `tmux`: what they ask for, and which of them are served.

use crate::path::{extension, file_name, path_extension, path_file_name};
use crate::cli::values::SplitDirection;
use crate::text::{
    chars_of, contains_part, contains_string, has_part, has_text, join, join_strings, opt_str,
    opt_text, parse_unsigned, read_unsigned, split_once, split_once_at, starts_with_str, str_eq,
    string_of, strip_prefix, strip_prefix_of, tail_strings, texts, trim, trim_str,
};
use vstd::prelude::*;

verus! {

broadcast use crate::text::group_texts;

/// What `tmux -V` answers.
pub const COMPAT_VERSION: &'static str = "tmux 3.5a (karvex-compat)";

// ---------------------------------------------------------------------------
// Invocations
// ---------------------------------------------------------------------------

/// The file name of a path without its extension.
pub open spec fn file_stem(path: Seq<char>, windows: bool) -> Seq<char> {
    match extension(path, windows) {
        Some(ext) => file_name(path, windows).take(
            file_name(path, windows).len() - ext.len() - 1,
        ),
        None => file_name(path, windows),
    }
}

/// Whether the program was called as `tmux`.
pub fn invoked_as_tmux(program: &str, windows: bool) -> (r: bool)
    ensures
        r == (file_stem(program@, windows) == "tmux"@),
{
    let name = path_file_name(program, windows);
    match path_extension(program, windows) {
        None => str_eq(name.as_str(), "tmux"),
        Some(ext) => {
            let chars = chars_of(name.as_str());
            let n: usize = chars.len();
            let k: usize = ext.as_str().unicode_len();
            assert(k + 1 < n);
            let stem = string_of(&chars, 0, n - k - 1);
            assert(stem@ =~= file_stem(program@, windows));
            str_eq(stem.as_str(), "tmux")
        },
    }
}

/// An invocation, taken apart.
#[derive(Debug, PartialEq, Eq)]
pub struct ParsedInvocation {
    pub socket_path: Option<String>,
    pub named_socket: Option<String>,
    pub version_only: bool,
    pub subcommand: Option<String>,
    pub args: Vec<String>,
}

/// An invocation, by its views.
pub struct Invocation {
    pub socket_path: Option<Seq<char>>,
    pub named_socket: Option<Seq<char>>,
    pub version_only: bool,
    pub subcommand: Option<Seq<char>>,
    pub args: Seq<Seq<char>>,
}

/// Flags before the subcommand whose value is passed over.
pub open spec fn skips_value(arg: Seq<char>) -> bool {
    arg == "-f"@ || arg == "-c"@ || arg == "-T"@
}

/// What `args` from `i` on make of an invocation. Before the subcommand flags are
/// taken or passed over; what follows it is its own.
pub open spec fn invocation(args: Seq<Seq<char>>, i: int, inv: Invocation) -> Invocation
    decreases args.len() - i,
{
    if i >= args.len() {
        inv
    } else if inv.subcommand is Some {
        invocation(args, i + 1, Invocation { args: inv.args.push(args[i]), ..inv })
    } else if args[i] == "-S"@ && i + 1 < args.len() {
        invocation(args, i + 2, Invocation { socket_path: Some(args[i + 1]), ..inv })
    } else if args[i] == "-L"@ && i + 1 < args.len() {
        invocation(args, i + 2, Invocation { named_socket: Some(args[i + 1]), ..inv })
    } else if args[i] == "-S"@ || args[i] == "-L"@ {
        invocation(args, i + 1, Invocation { args: inv.args.push(args[i]), ..inv })
    } else if args[i] == "-V"@ {
        invocation(args, i + 1, Invocation { version_only: true, ..inv })
    } else if skips_value(args[i]) {
        if i + 1 < args.len() {
            invocation(args, i + 2, inv)
        } else {
            inv
        }
    } else if !"-"@.is_prefix_of(args[i]) {
        invocation(args, i + 1, Invocation { subcommand: Some(args[i]), ..inv })
    } else {
        invocation(args, i + 1, inv)
    }
}

pub open spec fn no_invocation() -> Invocation {
    Invocation {
        socket_path: None,
        named_socket: None,
        version_only: false,
        subcommand: None,
        args: Seq::empty(),
    }
}

pub open spec fn invocation_view(p: ParsedInvocation) -> Invocation {
    Invocation {
        socket_path: opt_text(p.socket_path),
        named_socket: opt_text(p.named_socket),
        version_only: p.version_only,
        subcommand: opt_text(p.subcommand),
        args: texts(p.args@),
    }
}

pub fn parse_invocation(args: &[String]) -> (r: ParsedInvocation)
    ensures
        invocation_view(r) == invocation(texts(args@), 0, no_invocation()),
{
    let ghost all = texts(args@);
    let mut p = ParsedInvocation {
        socket_path: None,
        named_socket: None,
        version_only: false,
        subcommand: None,
        args: Vec::new(),
    };
    assert(texts(p.args@) =~= Seq::<Seq<char>>::empty());
    let mut i: usize = 0;
    while i < args.len()
        invariant
            all == texts(args@),
            i <= args@.len() + 1,
            invocation(all, 0, no_invocation()) == invocation(all, i as int, invocation_view(p)),
        decreases args@.len() - i,
    {
        let arg = args[i].as_str();
        assert(all[i as int] == arg@);
        let ghost before = invocation_view(p);
        if p.subcommand.is_some() {
            p.args.push(args[i].clone());
            assert(invocation_view(p) == (Invocation { args: before.args.push(all[i as int]), ..before }));
            i = i + 1;
        } else if str_eq(arg, "-S") || str_eq(arg, "-L") {
            if args.len() - i <= 1 {
                p.args.push(args[i].clone());
                assert(invocation_view(p) == (Invocation {
                    args: before.args.push(all[i as int]),
                    ..before
                }));
                i = i + 1;
            } else {
                assert(all[i + 1] == args@[i + 1]@);
                if str_eq(arg, "-S") {
                    p.socket_path = Some(args[i + 1].clone());
                } else {
                    p.named_socket = Some(args[i + 1].clone());
                }
                i = i + 2;
            }
        } else if str_eq(arg, "-V") {
            p.version_only = true;
            i = i + 1;
        } else if str_eq(arg, "-f") || str_eq(arg, "-c") || str_eq(arg, "-T") {
            if args.len() - i <= 1 {
                i = i + 1;
            } else {
                i = i + 2;
            }
        } else if !starts_with_str(arg, "-") {
            p.subcommand = Some(args[i].clone());
            i = i + 1;
        } else {
            i = i + 1;
        }
    }
    p
}

// ---------------------------------------------------------------------------
// The socket
// ---------------------------------------------------------------------------

/// What stands before the first comma.
pub open spec fn first_field(s: Seq<char>) -> Seq<char> {
    match split_once(s, ',') {
        Some((first, _)) => first,
        None => s,
    }
}

/// The socket the environment names: its own variable, else the first field of
/// `TMUX`. There is no other one to fall back on.
pub open spec fn socket_of(socket_path: Option<Seq<char>>, tmux: Option<Seq<char>>) -> Option<
    Seq<char>,
> {
    match socket_path {
        Some(p) if trim(p).len() > 0 => Some(trim(p)),
        _ => match tmux {
            Some(t) if trim(first_field(t)).len() > 0 => Some(trim(first_field(t))),
            _ => None,
        },
    }
}

pub fn socket_from_env_values(socket_path: Option<&str>, tmux: Option<&str>) -> (r: Option<String>)
    ensures
        opt_text(r) == socket_of(opt_str(socket_path), opt_str(tmux)),
{
    match socket_path {
        Some(p) => {
            let t = trim_str(p);
            if !t.as_str().is_empty() {
                return Some(t);
            }
        },
        None => {},
    }
    match tmux {
        Some(t) => {
            let first = match split_once_at(t, ',') {
                Some((first, _)) => trim_str(first.as_str()),
                None => trim_str(t),
            };
            if first.as_str().is_empty() {
                None
            } else {
                Some(first)
            }
        },
        None => None,
    }
}

/// Whether two paths are of one socket. `requested_file` and `own_file` are the files
/// they lead to, where they lead to one.
pub open spec fn same_socket(
    requested: Seq<char>,
    ours: Seq<char>,
    requested_file: Option<Seq<char>>,
    own_file: Option<Seq<char>>,
) -> bool {
    trim(requested) == trim(ours) || (requested_file is Some && requested_file == own_file)
}

pub fn socket_paths_match(
    requested: &str,
    ours: &str,
    requested_file: &Option<String>,
    own_file: &Option<String>,
) -> (r: bool)
    ensures
        r == same_socket(requested@, ours@, opt_text(*requested_file), opt_text(*own_file)),
{
    if str_eq(trim_str(requested).as_str(), trim_str(ours).as_str()) {
        return true;
    }
    match (requested_file, own_file) {
        (Some(a), Some(b)) => str_eq(a.as_str(), b.as_str()),
        _ => false,
    }
}

/// The subcommands that are served.
pub open spec fn is_serviced(sub: Seq<char>) -> bool {
    ||| sub == "display-message"@
    ||| sub == "list-panes"@
    ||| sub == "split-window"@
    ||| sub == "splitw"@
    ||| sub == "respawn-pane"@
    ||| sub == "set-option"@
    ||| sub == "set"@
    ||| sub == "select-pane"@
    ||| sub == "selectp"@
    ||| sub == "kill-pane"@
    ||| sub == "killp"@
    ||| sub == "select-layout"@
    ||| sub == "resize-pane"@
    ||| sub == "resizep"@
    ||| sub == "show-options"@
    ||| sub == "send-keys"@
}

fn sub_is_serviced(sub: &str) -> (r: bool)
    ensures
        r == is_serviced(sub@),
{
    str_eq(sub, "display-message") || str_eq(sub, "list-panes") || str_eq(sub, "split-window")
        || str_eq(sub, "splitw") || str_eq(sub, "respawn-pane") || str_eq(sub, "set-option")
        || str_eq(sub, "set") || str_eq(sub, "select-pane") || str_eq(sub, "selectp") || str_eq(
        sub,
        "kill-pane",
    ) || str_eq(sub, "killp") || str_eq(sub, "select-layout") || str_eq(sub, "resize-pane")
        || str_eq(sub, "resizep") || str_eq(sub, "show-options") || str_eq(sub, "send-keys")
}

/// Whether an invocation is served: one for a server of its own name, or for another
/// socket, or with another subcommand, is not.
pub open spec fn serviced(
    inv: Invocation,
    socket: Option<Seq<char>>,
    requested_file: Option<Seq<char>>,
    own_file: Option<Seq<char>>,
) -> bool {
    &&& inv.named_socket is None
    &&& socket is Some
    &&& inv.socket_path matches Some(p) ==> same_socket(p, socket->0, requested_file, own_file)
    &&& inv.subcommand is Some
    &&& is_serviced(inv.subcommand->0)
}

pub fn should_service(
    parsed: &ParsedInvocation,
    resolved_socket: Option<&str>,
    requested_file: &Option<String>,
    own_file: &Option<String>,
) -> (r: bool)
    ensures
        r == serviced(
            invocation_view(*parsed),
            opt_str(resolved_socket),
            opt_text(*requested_file),
            opt_text(*own_file),
        ),
{
    if parsed.named_socket.is_some() {
        return false;
    }
    let ours = match resolved_socket {
        Some(s) => s,
        None => {
            return false;
        },
    };
    match &parsed.socket_path {
        Some(requested) => {
            if !socket_paths_match(requested.as_str(), ours, requested_file, own_file) {
                return false;
            }
        },
        None => {},
    }
    match &parsed.subcommand {
        Some(sub) => sub_is_serviced(sub.as_str()),
        None => false,
    }
}

/// A named server is always left to the real program.
pub proof fn law_named_servers_are_never_served(
    inv: Invocation,
    socket: Option<Seq<char>>,
    requested_file: Option<Seq<char>>,
    own_file: Option<Seq<char>>,
)
    ensures
        inv.named_socket is Some ==> !serviced(inv, socket, requested_file, own_file),
        socket is None ==> !serviced(inv, socket, requested_file, own_file),
{
}

// ---------------------------------------------------------------------------
// Ids
// ---------------------------------------------------------------------------

/// The id of a pane as it is told outside.
pub open spec fn outer_pane_id(native: Seq<char>) -> Seq<char> {
    native
}

/// The id of a pane that was told from outside.
pub open spec fn inner_pane_id(external: Seq<char>) -> Seq<char> {
    external
}

/// The id of a window as it is told outside.
pub open spec fn outer_window_id(native: Seq<char>) -> Seq<char> {
    native
}

/// The id of a window that was told from outside.
pub open spec fn inner_window_id(external: Seq<char>) -> Seq<char> {
    external
}

pub fn encode_pane_id(native: &str) -> (r: String)
    ensures
        r@ == outer_pane_id(native@),
{
    native.to_owned()
}

pub fn decode_pane_id(external: &str) -> (r: String)
    ensures
        r@ == inner_pane_id(external@),
{
    external.to_owned()
}

pub fn encode_window_id(native: &str) -> (r: String)
    ensures
        r@ == outer_window_id(native@),
{
    native.to_owned()
}

pub fn decode_window_id(external: &str) -> (r: String)
    ensures
        r@ == inner_window_id(external@),
{
    external.to_owned()
}

/// An id that is told outside and handed back is the same id.
pub proof fn law_ids_come_back(id: Seq<char>)
    ensures
        inner_pane_id(outer_pane_id(id)) == id,
        outer_pane_id(inner_pane_id(id)) == id,
        inner_window_id(outer_window_id(id)) == id,
        outer_window_id(inner_window_id(id)) == id,
{
}

/// The digits a text ends with.
pub open spec fn trailing_digits(s: Seq<char>) -> Seq<char>
    decreases s.len(),
{
    if s.len() == 0 || !('0' <= s.last() <= '9') {
        Seq::empty()
    } else {
        trailing_digits(s.drop_last()).push(s.last())
    }
}

/// What follows the last `:p` of a pane's id.
pub open spec fn pane_number_text(id: Seq<char>) -> Option<Seq<char>>
    decreases id.len(),
{
    if id.len() < 2 {
        None
    } else if id[id.len() - 2] == ':' && id[id.len() - 1] == 'p' {
        Some(Seq::empty())
    } else {
        match pane_number_text(id.drop_last()) {
            Some(rest) => Some(rest.push(id.last())),
            None => None,
        }
    }
}

pub fn pane_number_part(id: &str) -> (r: Option<String>)
    ensures
        opt_text(r) == pane_number_text(id@),
{
    let chars = chars_of(id);
    let mut n: usize = chars.len();
    let ghost all = id@;
    assert(all.take(n as int) =~= all);
    assert(all.subrange(n as int, all.len() as int) =~= Seq::<char>::empty());
    proof {
        match pane_number_text(all) {
            Some(rest) => {
                assert(rest + Seq::<char>::empty() =~= rest);
            },
            None => {},
        }
    }
    while n >= 2 && !(chars[n - 2] == ':' && chars[n - 1] == 'p')
        invariant
            n <= chars@.len(),
            chars@ == all,
            pane_number_text(all) == (match pane_number_text(all.take(n as int)) {
                Some(rest) => Some(rest + all.subrange(n as int, all.len() as int)),
                None => None,
            }),
        decreases n,
    {
        proof {
            let head = all.take(n as int);
            assert(head.drop_last() =~= all.take(n - 1));
            assert(head.last() == all[n - 1]);
            assert(head[head.len() - 2] == all[n - 2]);
            match pane_number_text(all.take(n - 1)) {
                Some(rest) => {
                    assert(rest.push(all[n - 1]) + all.subrange(n as int, all.len() as int) =~= rest
                        + all.subrange(n - 1, all.len() as int));
                },
                None => {},
            }
        }
        n = n - 1;
    }
    if n < 2 {
        assert(all.take(n as int).len() < 2);
        return None;
    }
    proof {
        let head = all.take(n as int);
        assert(head[head.len() - 2] == all[n - 2]);
        assert(head[head.len() - 1] == all[n - 1]);
        assert(Seq::<char>::empty() + all.subrange(n as int, all.len() as int) =~= all.subrange(
            n as int,
            all.len() as int,
        ));
    }
    Some(string_of(&chars, n, chars.len()))
}

/// The place of a pane in the order of creation: the number its id carries, decoded;
/// else the digits its id ends with; else behind all others.
pub open spec fn ordinal(pane_id: Seq<char>, decoded: Option<u64>) -> u64 {
    match (pane_number_text(pane_id), decoded) {
        (Some(_), Some(n)) => n,
        _ => match read_unsigned(trailing_digits(pane_id), u64::MAX as nat) {
            Some(n) => n as u64,
            None => u64::MAX,
        },
    }
}

fn digits_at_end(s: &str) -> (r: String)
    ensures
        r@ == trailing_digits(s@),
{
    let chars = chars_of(s);
    let mut n: usize = chars.len();
    assert(s@.take(n as int) =~= s@);
    assert(trailing_digits(s@) + s@.subrange(n as int, s@.len() as int) =~= trailing_digits(s@));
    while n > 0 && chars[n - 1] >= '0' && chars[n - 1] <= '9'
        invariant
            n <= chars@.len(),
            chars@ == s@,
            trailing_digits(s@) == trailing_digits(s@.take(n as int)) + s@.subrange(
                n as int,
                s@.len() as int,
            ),
        decreases n,
    {
        proof {
            let head = s@.take(n as int);
            assert(head.drop_last() =~= s@.take(n - 1));
            assert(head.last() == s@[n - 1]);
            assert(trailing_digits(s@.take(n - 1)).push(s@[n - 1]) + s@.subrange(
                n as int,
                s@.len() as int,
            ) =~= trailing_digits(s@.take(n - 1)) + s@.subrange(n - 1, s@.len() as int));
        }
        n = n - 1;
    }
    proof {
        let head = s@.take(n as int);
        if n > 0 {
            assert(head.last() == s@[n - 1]);
        }
        assert(trailing_digits(head) =~= Seq::<char>::empty());
        assert(trailing_digits(s@) =~= s@.subrange(n as int, s@.len() as int));
    }
    string_of(&chars, n, chars.len())
}

/// `decoded` is what the number in the id stands for, where it stands for one.
pub fn pane_ordinal(pane_id: &str, decoded: Option<u64>) -> (r: u64)
    ensures
        r == ordinal(pane_id@, decoded),
{
    match (pane_number_part(pane_id), decoded) {
        (Some(_), Some(n)) => n,
        _ => match parse_unsigned(digits_at_end(pane_id).as_str(), u64::MAX) {
            Some(n) => n,
            None => u64::MAX,
        },
    }
}

/// An id that only a real tmux server gives out.
pub fn looks_like_foreign_pane_id(pane_id: &str) -> (r: bool)
    ensures
        r == "%"@.is_prefix_of(pane_id@),
{
    starts_with_str(pane_id, "%")
}

// ---------------------------------------------------------------------------
// Arguments
// ---------------------------------------------------------------------------

/// The value behind the first `flag` from `i` on.
pub open spec fn flag_text(args: Seq<Seq<char>>, flag: Seq<char>, i: int) -> Option<Seq<char>>
    decreases args.len() - i,
{
    if i >= args.len() {
        None
    } else if args[i] == flag {
        if i + 1 < args.len() {
            Some(args[i + 1])
        } else {
            None
        }
    } else {
        flag_text(args, flag, i + 1)
    }
}

pub fn flag_value(args: &[String], flag: &str) -> (r: Option<String>)
    ensures
        opt_text(r) == flag_text(texts(args@), flag@, 0),
{
    let ghost all = texts(args@);
    let mut i: usize = 0;
    while i < args.len()
        invariant
            i <= args@.len(),
            all == texts(args@),
            flag_text(all, flag@, 0) == flag_text(all, flag@, i as int),
        decreases args@.len() - i,
    {
        assert(all[i as int] == args@[i as int]@);
        if str_eq(args[i].as_str(), flag) {
            if args.len() - i <= 1 {
                return None;
            }
            assert(all[i + 1] == args@[i + 1]@);
            return Some(args[i + 1].clone());
        }
        i = i + 1;
    }
    None
}

/// Where the first `--` stands, from `i` on.
pub open spec fn separator(args: Seq<Seq<char>>, i: int) -> Option<int>
    decreases args.len() - i,
{
    if i >= args.len() {
        None
    } else if args[i] == "--"@ {
        Some(i)
    } else {
        separator(args, i + 1)
    }
}

fn find_separator(args: &[String]) -> (r: Option<usize>)
    ensures
        match (r, separator(texts(args@), 0)) {
            (Some(n), Some(k)) => n == k && n < args@.len(),
            (None, None) => true,
            _ => false,
        },
{
    let ghost all = texts(args@);
    let mut i: usize = 0;
    while i < args.len()
        invariant
            i <= args@.len(),
            all == texts(args@),
            separator(all, 0) == separator(all, i as int),
        decreases args@.len() - i,
    {
        assert(all[i as int] == args@[i as int]@);
        if str_eq(args[i].as_str(), "--") {
            return Some(i);
        }
        i = i + 1;
    }
    None
}

/// The arguments before the `--`.
pub open spec fn before_separator(args: Seq<Seq<char>>) -> Seq<Seq<char>> {
    match separator(args, 0) {
        Some(n) => args.take(n),
        None => args,
    }
}

pub fn args_before_separator(args: &[String]) -> (r: Vec<String>)
    ensures
        texts(r@) == before_separator(texts(args@)),
{
    let end: usize = match find_separator(args) {
        Some(n) => n,
        None => args.len(),
    };
    let ghost all = texts(args@);
    let mut out: Vec<String> = Vec::new();
    let mut i: usize = 0;
    assert(texts(out@) =~= all.take(0));
    while i < end
        invariant
            i <= end <= args@.len(),
            all == texts(args@),
            texts(out@) == all.take(i as int),
        decreases end - i,
    {
        out.push(args[i].clone());
        assert(all.take(i as int + 1) =~= all.take(i as int).push(all[i as int]));
        i = i + 1;
    }
    assert(all.take(all.len() as int) =~= all);
    out
}

/// The command behind the `--`, where there is one.
pub open spec fn command_after(args: Seq<Seq<char>>) -> Option<Seq<char>> {
    match separator(args, 0) {
        Some(n) => {
            let command = join(args.skip(n + 1), " "@);
            if command.len() == 0 {
                None
            } else {
                Some(command)
            }
        },
        None => None,
    }
}

pub fn trailing_command(args: &[String]) -> (r: Option<String>)
    ensures
        opt_text(r) == command_after(texts(args@)),
{
    match find_separator(args) {
        Some(n) => {
            let total: usize = args.len();
            assert(n < total);
            let rest = tail_strings(args, n + 1);
            assert(texts(rest@) =~= texts(args@).skip(n as int + 1));
            let command = join_strings(rest.as_slice(), " ");
            if command.as_str().is_empty() {
                None
            } else {
                Some(command)
            }
        },
        None => None,
    }
}

/// The arguments that are neither flags nor the target, from `i` on.
pub open spec fn positionals(args: Seq<Seq<char>>, i: int) -> Seq<Seq<char>>
    decreases args.len() - i,
{
    if i >= args.len() {
        Seq::empty()
    } else if args[i] == "-t"@ {
        if i + 1 < args.len() {
            positionals(args, i + 2)
        } else {
            Seq::empty()
        }
    } else if "-"@.is_prefix_of(args[i]) {
        positionals(args, i + 1)
    } else {
        seq![args[i]] + positionals(args, i + 1)
    }
}

pub fn positional_args_excluding_target(args: &[String]) -> (r: Vec<String>)
    ensures
        texts(r@) == positionals(texts(args@), 0),
{
    let ghost all = texts(args@);
    let mut out: Vec<String> = Vec::new();
    let mut i: usize = 0;
    assert(texts(out@) + positionals(all, 0) =~= positionals(all, 0));
    while i < args.len()
        invariant
            i <= args@.len(),
            all == texts(args@),
            positionals(all, 0) == texts(out@) + positionals(all, i as int),
        decreases args@.len() - i,
    {
        let arg = args[i].as_str();
        assert(all[i as int] == arg@);
        if str_eq(arg, "-t") {
            if args.len() - i <= 1 {
                i = i + 1;
            } else {
                i = i + 2;
            }
        } else if starts_with_str(arg, "-") {
            i = i + 1;
        } else {
            let ghost rest = positionals(all, i as int + 1);
            let ghost so_far = texts(out@);
            out.push(args[i].clone());
            assert(so_far.push(all[i as int]) + rest =~= so_far + (seq![all[i as int]] + rest));
            i = i + 1;
        }
    }
    assert(texts(out@) + Seq::<Seq<char>>::empty() =~= texts(out@));
    out
}

// ---------------------------------------------------------------------------
// Plans
// ---------------------------------------------------------------------------

#[derive(Debug, Clone, Copy, PartialEq, Eq, Structural)]
pub enum DisplayFormat {
    PaneId,
    WindowId,
    ClientControlMode,
    ClientTermtype,
    /// A format that is not known: it shows nothing.
    Unsupported,
}

#[derive(Debug, PartialEq, Eq)]
pub struct DisplayMessagePlan {
    pub target: Option<String>,
    pub format: DisplayFormat,
}

/// The last argument with a format in it.
pub open spec fn format_text(args: Seq<Seq<char>>) -> Option<Seq<char>>
    decreases args.len(),
{
    if args.len() == 0 {
        None
    } else if has_part(args.last(), "#{"@) {
        Some(args.last())
    } else {
        format_text(args.drop_last())
    }
}

pub open spec fn format_named(text: Option<Seq<char>>) -> DisplayFormat {
    if text == Some("#{pane_id}"@) {
        DisplayFormat::PaneId
    } else if text == Some("#{window_id}"@) {
        DisplayFormat::WindowId
    } else if text == Some("#{client_control_mode}"@) {
        DisplayFormat::ClientControlMode
    } else if text == Some("#{client_termtype}"@) {
        DisplayFormat::ClientTermtype
    } else {
        DisplayFormat::Unsupported
    }
}

pub fn plan_display_message(args: &[String]) -> (r: DisplayMessagePlan)
    ensures
        opt_text(r.target) == flag_text(texts(args@), "-t"@, 0),
        r.format == format_named(format_text(texts(args@))),
{
    let target = flag_value(args, "-t");
    let ghost all = texts(args@);
    let mut n: usize = args.len();
    assert(all.take(n as int) =~= all);
    let mut format = DisplayFormat::Unsupported;
    while n > 0
        invariant
            n <= args@.len(),
            all == texts(args@),
            opt_text(target) == flag_text(all, "-t"@, 0),
            format_text(all) == format_text(all.take(n as int)),
        decreases n,
    {
        let arg = args[n - 1].as_str();
        proof {
            assert(all.take(n as int).last() == all[n - 1]);
            assert(all[n - 1] == arg@);
            assert(all.take(n as int).drop_last() =~= all.take(n - 1));
        }
        if contains_part(arg, "#{") {
            let format = if str_eq(arg, "#{pane_id}") {
                DisplayFormat::PaneId
            } else if str_eq(arg, "#{window_id}") {
                DisplayFormat::WindowId
            } else if str_eq(arg, "#{client_control_mode}") {
                DisplayFormat::ClientControlMode
            } else if str_eq(arg, "#{client_termtype}") {
                DisplayFormat::ClientTermtype
            } else {
                DisplayFormat::Unsupported
            };
            return DisplayMessagePlan { target, format };
        }
        n = n - 1;
    }
    DisplayMessagePlan { target, format: DisplayFormat::Unsupported }
}

/// A new pane beside another. `percent` is the share that the new one is to have, as
/// it was written.
#[derive(Debug, PartialEq, Eq)]
pub struct SplitPlan {
    pub target: Option<String>,
    pub direction: SplitDirection,
    pub percent: Option<String>,
    pub focus: bool,
    pub print_pane_id: bool,
}

/// What stands before a `%` at the end.
pub open spec fn percentage(text: Seq<char>) -> Option<Seq<char>> {
    if text.len() > 0 && text.last() == '%' {
        Some(text.drop_last())
    } else {
        None
    }
}

fn percentage_of(text: &str) -> (r: Option<String>)
    ensures
        opt_text(r) == percentage(text@),
{
    let chars = chars_of(text);
    let n: usize = chars.len();
    if n > 0 && chars[n - 1] == '%' {
        assert(text@.subrange(0, n - 1) =~= text@.drop_last());
        Some(string_of(&chars, 0, n - 1))
    } else {
        None
    }
}

pub open spec fn split_is(args: Seq<Seq<char>>, p: SplitPlan) -> bool {
    let flags = before_separator(args);
    &&& opt_text(p.target) == flag_text(flags, "-t"@, 0)
    &&& p.direction == (if has_text(flags, "-v"@) {
        SplitDirection::Down
    } else {
        SplitDirection::Right
    })
    &&& opt_text(p.percent) == (match flag_text(flags, "-l"@, 0) {
        Some(t) => percentage(t),
        None => None,
    })
    &&& p.focus == !has_text(flags, "-d"@)
    &&& p.print_pane_id == has_text(flags, "-P"@)
}

pub fn plan_split_window(args: &[String]) -> (r: SplitPlan)
    ensures
        split_is(texts(args@), r),
{
    let flags = args_before_separator(args);
    let direction = if contains_string(flags.as_slice(), "-v") {
        SplitDirection::Down
    } else {
        SplitDirection::Right
    };
    let percent = match flag_value(flags.as_slice(), "-l") {
        Some(t) => percentage_of(t.as_str()),
        None => None,
    };
    SplitPlan {
        target: flag_value(flags.as_slice(), "-t"),
        direction,
        percent,
        focus: !contains_string(flags.as_slice(), "-d"),
        print_pane_id: contains_string(flags.as_slice(), "-P"),
    }
}

#[derive(Debug, PartialEq, Eq)]
pub struct RespawnPlan {
    pub target: Option<String>,
    pub command: Option<String>,
}

pub fn plan_respawn_pane(args: &[String]) -> (r: RespawnPlan)
    ensures
        opt_text(r.target) == flag_text(before_separator(texts(args@)), "-t"@, 0),
        opt_text(r.command) == command_after(texts(args@)),
{
    let flags = args_before_separator(args);
    RespawnPlan { target: flag_value(flags.as_slice(), "-t"), command: trailing_command(args) }
}

#[derive(Debug, PartialEq, Eq)]
pub struct SelectPanePlan {
    pub target: Option<String>,
    pub title: Option<String>,
}

pub fn plan_select_pane(args: &[String]) -> (r: SelectPanePlan)
    ensures
        opt_text(r.target) == flag_text(texts(args@), "-t"@, 0),
        opt_text(r.title) == flag_text(texts(args@), "-T"@, 0),
{
    SelectPanePlan { target: flag_value(args, "-t"), title: flag_value(args, "-T") }
}

/// What a pane or a window is named by.
#[derive(Debug, PartialEq, Eq)]
pub struct TargetPlan {
    pub target: Option<String>,
}

pub fn plan_kill_pane(args: &[String]) -> (r: TargetPlan)
    ensures
        opt_text(r.target) == flag_text(texts(args@), "-t"@, 0),
{
    TargetPlan { target: flag_value(args, "-t") }
}

pub fn plan_list_panes(args: &[String]) -> (r: TargetPlan)
    ensures
        opt_text(r.target) == flag_text(texts(args@), "-t"@, 0),
{
    TargetPlan { target: flag_value(args, "-t") }
}

#[derive(Debug, PartialEq, Eq)]
pub struct SendKeysPlan {
    pub target: Option<String>,
    pub text: String,
    pub keys: Vec<String>,
}

/// Whether the last word is the Enter key.
pub open spec fn ends_with_enter(words: Seq<Seq<char>>) -> bool {
    words.len() > 0 && words.last() == "Enter"@
}

pub open spec fn send_keys_is(args: Seq<Seq<char>>, p: SendKeysPlan) -> bool {
    let words = positionals(args, 0);
    &&& opt_text(p.target) == flag_text(args, "-t"@, 0)
    &&& if ends_with_enter(words) {
        p.text@ == join(words.drop_last(), " "@) && texts(p.keys@) == seq!["Enter"@]
    } else {
        p.text@ == join(words, " "@) && p.keys@.len() == 0
    }
}

pub fn plan_send_keys(args: &[String]) -> (r: SendKeysPlan)
    ensures
        send_keys_is(texts(args@), r),
{
    let target = flag_value(args, "-t");
    let mut words = positional_args_excluding_target(args);
    let ghost all = texts(words@);
    let mut keys: Vec<String> = Vec::new();
    let n: usize = words.len();
    if n > 0 && str_eq(words[n - 1].as_str(), "Enter") {
        assert(all.last() == words@[n - 1]@);
        let _ = words.pop();
        keys.push("Enter".to_owned());
        assert(texts(words@) =~= all.drop_last());
        assert(texts(keys@) =~= seq!["Enter"@]);
    } else {
        assert(n > 0 ==> all.last() == words@[n - 1]@);
    }
    SendKeysPlan { target, text: join_strings(words.as_slice(), " "), keys }
}

#[derive(Debug, Clone, Copy, PartialEq, Eq, Structural)]
pub struct ShowOptionsPlan {
    pub print_prefix: bool,
}

pub fn plan_show_options(args: &[String]) -> (r: ShowOptionsPlan)
    ensures
        r.print_prefix == has_text(texts(args@), "prefix"@),
{
    ShowOptionsPlan { print_prefix: contains_string(args, "prefix") }
}

/// A shell has settled where two looks at it in a row show the same, and not nothing.
pub open spec fn settled(previous: Seq<char>, current: Seq<char>) -> bool {
    trim(current).len() > 0 && previous == current
}

pub fn shell_looks_ready(previous: &str, current: &str) -> (r: bool)
    ensures
        r == settled(previous@, current@),
{
    !crate::text::is_blank(current) && str_eq(previous, current)
}

#[derive(Debug, PartialEq, Eq)]
pub struct SetOptionPlan {
    pub target: Option<String>,
    pub option: Option<String>,
    pub value: Option<String>,
}

pub open spec fn nth(words: Seq<Seq<char>>, i: int) -> Option<Seq<char>> {
    if i < words.len() {
        Some(words[i])
    } else {
        None
    }
}

pub fn plan_set_option(args: &[String]) -> (r: SetOptionPlan)
    ensures
        opt_text(r.target) == flag_text(texts(args@), "-t"@, 0),
        opt_text(r.option) == nth(positionals(texts(args@), 0), 0),
        opt_text(r.value) == nth(positionals(texts(args@), 0), 1),
{
    let words = positional_args_excluding_target(args);
    let option = if words.len() > 0 {
        Some(words[0].clone())
    } else {
        None
    };
    let value = if words.len() > 1 {
        Some(words[1].clone())
    } else {
        None
    };
    SetOptionPlan { target: flag_value(args, "-t"), option, value }
}

// ---------------------------------------------------------------------------
// The accent of a pane
// ---------------------------------------------------------------------------

/// The name under which a pane's accent is kept.
pub const AGENT_ACCENT_TOKEN_KEY: &'static str = "agent_accent";

/// Who tells of an accent.
pub const ACCENT_METADATA_SOURCE: &'static str = "karvex:tmux-compat";

/// What a style option means for the accent of its pane.
#[derive(Debug, PartialEq, Eq)]
pub enum AccentPlan {
    /// Nothing.
    NotAccent,
    /// It is set.
    SetTo(String),
    /// It is taken away.
    Clear,
    /// It names a colour that is not known.
    Unknown,
}

/// The options that carry an accent.
pub open spec fn is_accent_option(option: Seq<char>) -> bool {
    option == "window-style"@ || option == "pane-border-style"@ || option
        == "pane-active-border-style"@
}

/// The first `fg=` among the comma-separated parts of a style.
pub open spec fn foreground(value: Seq<char>) -> Option<Seq<char>>
    decreases value.len(),
    via foreground_decreases
{
    match split_once(value, ',') {
        None => strip_prefix(value, "fg="@),
        Some((first, rest)) => match strip_prefix(first, "fg="@) {
            Some(fg) => Some(fg),
            None => foreground(rest),
        },
    }
}

#[via_fn]
proof fn foreground_decreases(value: Seq<char>) {
    crate::text::lemma_split_once(value, ',');
}

/// The colour that a style's colour is shown as.
pub open spec fn accent_colour(raw: Seq<char>) -> Option<Seq<char>> {
    if raw == "red"@ || raw == "blue"@ || raw == "green"@ || raw == "yellow"@ || raw == "magenta"@
        || raw == "cyan"@ {
        Some(raw)
    } else if raw == "colour208"@ {
        Some("orange"@)
    } else if raw == "colour205"@ {
        Some("pink"@)
    } else {
        None
    }
}

pub fn normalize_claude_colour(raw: &str) -> (r: Option<String>)
    ensures
        opt_text(r) == accent_colour(raw@),
{
    if str_eq(raw, "red") || str_eq(raw, "blue") || str_eq(raw, "green") || str_eq(raw, "yellow")
        || str_eq(raw, "magenta") || str_eq(raw, "cyan") {
        Some(raw.to_owned())
    } else if str_eq(raw, "colour208") {
        Some("orange".to_owned())
    } else if str_eq(raw, "colour205") {
        Some("pink".to_owned())
    } else {
        None
    }
}

fn find_foreground(value: &str) -> (r: Option<String>)
    ensures
        opt_text(r) == foreground(value@),
{
    let mut rest = value.to_owned();
    loop
        invariant
            foreground(value@) == foreground(rest@),
        decreases rest@.len(),
    {
        match split_once_at(rest.as_str(), ',') {
            None => {
                return strip_prefix_of(rest.as_str(), "fg=");
            },
            Some((first, more)) => {
                match strip_prefix_of(first.as_str(), "fg=") {
                    Some(fg) => {
                        return Some(fg);
                    },
                    None => {},
                }
                proof {
                    crate::text::lemma_split_once(rest@, ',');
                }
                rest = more;
            },
        }
    }
}

/// What a style option means for the accent of its pane. Only the options that carry
/// one are looked into.
pub open spec fn accent_is(option: Seq<char>, value: Seq<char>, plan: AccentPlan) -> bool {
    if !is_accent_option(option) {
        plan is NotAccent
    } else {
        match foreground(value) {
            None => plan is NotAccent,
            Some(fg) => if trim(fg).len() == 0 {
                plan is Clear
            } else {
                match accent_colour(trim(fg)) {
                    Some(colour) => plan matches AccentPlan::SetTo(c) && c@ == colour,
                    None => plan is Unknown,
                }
            },
        }
    }
}

pub fn plan_accent(option: &str, value: &str) -> (r: AccentPlan)
    ensures
        accent_is(option@, value@, r),
{
    if !(str_eq(option, "window-style") || str_eq(option, "pane-border-style") || str_eq(
        option,
        "pane-active-border-style",
    )) {
        return AccentPlan::NotAccent;
    }
    match find_foreground(value) {
        None => AccentPlan::NotAccent,
        Some(fg) => {
            let fg = trim_str(fg.as_str());
            if fg.as_str().is_empty() {
                return AccentPlan::Clear;
            }
            match normalize_claude_colour(fg.as_str()) {
                Some(colour) => AccentPlan::SetTo(colour),
                None => AccentPlan::Unknown,
            }
        },
    }
}

/// Counts the accents that were told. A count is never told twice, until the counter
/// wraps.
#[derive(Debug, PartialEq, Eq)]
pub struct AccentCounter {
    pub next: u64,
}

/// The count that follows another.
pub open spec fn count_after(n: u64) -> u64 {
    if n == u64::MAX {
        0
    } else {
        (n + 1) as u64
    }
}

impl AccentCounter {
    pub fn new() -> (r: Self)
        ensures
            r.next == 1,
    {
        AccentCounter { next: 1 }
    }

    pub fn next_accent_seq(&mut self) -> (r: u64)
        ensures
            r == old(self).next,
            final(self).next == count_after(r),
    {
        let n = self.next;
        self.next = n.wrapping_add(1);
        n
    }
}

} // verus!
