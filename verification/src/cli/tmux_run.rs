//! Serving invocations under the name `tmux`, request by request.

use crate::cli::connect::ApiClientError;
use crate::cli::render::{complaint, shows, success};
use crate::cli::tmux::{
    accent_is, before_separator, command_after, decode_pane_id, decode_window_id,
    encode_pane_id, encode_window_id, flag_text, format_named, format_text, inner_pane_id,
    inner_window_id, invocation, looks_like_foreign_pane_id, no_invocation, nth, ordinal,
    outer_pane_id, outer_window_id, pane_ordinal, parse_invocation, plan_accent,
    plan_display_message, plan_kill_pane, plan_list_panes, plan_respawn_pane, plan_select_pane,
    plan_send_keys, plan_set_option, plan_show_options, plan_split_window, positionals,
    send_keys_is, serviced, settled, shell_looks_ready, should_service, socket_from_env_values,
    socket_of, split_is, count_after, AccentCounter, AccentPlan, DisplayFormat, SendKeysPlan, SplitPlan,
    ACCENT_METADATA_SOURCE, AGENT_ACCENT_TOKEN_KEY, COMPAT_VERSION,
};
use crate::cli::values::SplitDirection;
use crate::console::Console;
use crate::documents::Reply;
use crate::ipc::IoKind;
use crate::json::{member, text_at, Json};
use crate::text::{
    cat2, cat3, chars_of, copy_opt, has_text, is_blank, opt_text, split_once, split_once_at, str_eq, texts, trim,
    trim_str,
};
use vstd::prelude::*;

verus! {

broadcast use crate::text::group_texts;

// ---------------------------------------------------------------------------
// Errors
// ---------------------------------------------------------------------------

pub const ERROR_PREFIX: &'static str = "karvex tmux-compat: ";

/// How long a request may take, in milliseconds.
pub const SHIM_REQUEST_TIMEOUT_MS: u64 = 1500;

/// The id of the request for all panes.
pub const PANE_LIST_REQUEST_ID: &'static str = "tmux-compat:pane:list";

/// An error that says that there is no server.
pub open spec fn is_connect_failure(kind: IoKind) -> bool {
    kind is NotFound || kind is ConnectionRefused || kind is ConnectionAborted
        || kind is ConnectionReset
}

/// An error that says that a server took too long.
pub open spec fn is_timeout(kind: IoKind) -> bool {
    kind is TimedOut || kind is WouldBlock
}

/// What a character becomes in a line of its own: a line break becomes a blank.
pub open spec fn line_char(c: char) -> char {
    if c == '\n' || c == '\r' {
        ' '
    } else {
        c
    }
}

/// A text as one line. A text without line breaks stays as it is.
pub open spec fn one_line(text: Seq<char>) -> Seq<char> {
    text.map_values(|c: char| line_char(c))
}

/// Whether a text is one line.
pub open spec fn is_one_line(text: Seq<char>) -> bool {
    forall|i: int| 0 <= i < text.len() ==> (#[trigger] text[i]) != '\n' && text[i] != '\r'
}

fn line_text(text: &str) -> (r: String)
    ensures
        r@ == one_line(text@),
{
    let chars = chars_of(text);
    let mut out = String::new();
    let mut i: usize = 0;
    while i < chars.len()
        invariant
            i <= chars@.len(),
            chars@ == text@,
            out@ == one_line(text@.take(i as int)),
        decreases chars@.len() - i,
    {
        let c = chars[i];
        let p = match c {
            '\n' => ' ',
            '\r' => ' ',
            _ => c,
        };
        out.push(p);
        assert(text@.take(i as int + 1) =~= text@.take(i as int).push(c));
        assert(one_line(text@.take(i as int + 1)) =~= one_line(text@.take(i as int)).push(p));
        i = i + 1;
    }
    assert(text@.take(i as int) =~= text@);
    out
}

/// What a character becomes in what others say of a failure: a line break becomes a
/// blank, and a brace a bracket.
pub open spec fn plain_char(c: char) -> char {
    if c == '\n' || c == '\r' {
        ' '
    } else if c == '{' {
        '('
    } else if c == '}' {
        ')'
    } else {
        c
    }
}

/// A text as one plain line. A text without line breaks and braces stays as it is.
pub open spec fn plain_line(text: Seq<char>) -> Seq<char> {
    text.map_values(|c: char| plain_char(c))
}

/// Whether a text is one line and no notation of a document.
pub open spec fn is_plain(text: Seq<char>) -> bool {
    forall|i: int|
        0 <= i < text.len() ==> (#[trigger] text[i]) != '\n' && text[i] != '\r' && text[i] != '{'
            && text[i] != '}'
}

fn plain_text(text: &str) -> (r: String)
    ensures
        r@ == plain_line(text@),
{
    let chars = chars_of(text);
    let mut out = String::new();
    let mut i: usize = 0;
    while i < chars.len()
        invariant
            i <= chars@.len(),
            chars@ == text@,
            out@ == plain_line(text@.take(i as int)),
        decreases chars@.len() - i,
    {
        let c = chars[i];
        let p = match c {
            '\n' => ' ',
            '\r' => ' ',
            '{' => '(',
            '}' => ')',
            _ => c,
        };
        out.push(p);
        assert(text@.take(i as int + 1) =~= text@.take(i as int).push(c));
        assert(plain_line(text@.take(i as int + 1)) =~= plain_line(text@.take(i as int)).push(p));
        i = i + 1;
    }
    assert(text@.take(i as int) =~= text@);
    out
}

/// One plain line about a request that got no reply.
pub open spec fn client_error_line(error: ApiClientError) -> Seq<char> {
    match error {
        ApiClientError::Io(io) => if is_connect_failure(io.kind) {
            "no server running"@
        } else if is_timeout(io.kind) {
            ERROR_PREFIX@ + "server did not respond within 1500ms"@
        } else {
            ERROR_PREFIX@ + plain_line(io.message@)
        },
        ApiClientError::Json => ERROR_PREFIX@ + "malformed response from server"@,
        ApiClientError::EmptyResponse => ERROR_PREFIX@ + "empty response from server"@,
        ApiClientError::ErrorResponse(response) => ERROR_PREFIX@ + plain_line(response.message@),
        ApiClientError::UnexpectedResult(_) => ERROR_PREFIX@
            + "unexpected response from server"@,
    }
}

pub fn describe_client_error(error: &ApiClientError) -> (r: String)
    ensures
        r@ == client_error_line(*error),
{
    match error {
        ApiClientError::Io(io) => match io.kind {
            IoKind::NotFound
            | IoKind::ConnectionRefused
            | IoKind::ConnectionAborted
            | IoKind::ConnectionReset => "no server running".to_owned(),
            IoKind::TimedOut | IoKind::WouldBlock => cat2(
                ERROR_PREFIX,
                "server did not respond within 1500ms",
            ),
            _ => cat2(ERROR_PREFIX, plain_text(io.message.as_str()).as_str()),
        },
        ApiClientError::Json => cat2(ERROR_PREFIX, "malformed response from server"),
        ApiClientError::EmptyResponse => cat2(ERROR_PREFIX, "empty response from server"),
        ApiClientError::ErrorResponse(response) => cat2(
            ERROR_PREFIX,
            plain_text(response.message.as_str()).as_str(),
        ),
        ApiClientError::UnexpectedResult(_) => cat2(
            ERROR_PREFIX,
            "unexpected response from server",
        ),
    }
}

/// What a request came to: the reply, or the line about its failure.
pub open spec fn answer_is(
    sent: Result<Reply, ApiClientError>,
    r: Result<Reply, String>,
) -> bool {
    match sent {
        Err(e) => r matches Err(m) && m@ == client_error_line(e),
        Ok(reply) => match member(reply.value, "error"@) {
            None => r == Ok::<Reply, String>(reply),
            Some(error) => r matches Err(m) && m@ == ERROR_PREFIX@ + plain_line(
                match text_at(error, "message"@) {
                    Some(t) => t,
                    None => "request failed"@,
                },
            ),
        },
    }
}

pub fn shim_answer(sent: Result<Reply, ApiClientError>) -> (r: Result<Reply, String>)
    ensures
        answer_is(sent, r),
{
    match sent {
        Err(e) => Err(describe_client_error(&e)),
        Ok(reply) => {
            let complaint: Option<String> = match reply.value.get("error") {
                None => None,
                Some(error) => Some(error.text_or("message", "request failed")),
            };
            match complaint {
                None => Ok(reply),
                Some(m) => Err(cat2(ERROR_PREFIX, plain_text(m.as_str()).as_str())),
            }
        },
    }
}

/// The line about a pane that could not be made.
pub open spec fn split_failure_line(detail: Seq<char>) -> Seq<char> {
    "create pane failed: no space for new pane (too small): "@ + plain_line(detail)
}

pub fn split_failure(detail: &str) -> (r: String)
    ensures
        r@ == split_failure_line(detail@),
{
    cat2(
        "create pane failed: no space for new pane (too small): ",
        plain_text(detail).as_str(),
    )
}

/// What a shim tells of a request that failed, or of a pane that could not be made, is one
/// plain line, and never the notation of a document.
pub proof fn law_failures_are_plain_lines(
    error: ApiClientError,
    sent: Result<Reply, ApiClientError>,
    answer: Result<Reply, String>,
    detail: Seq<char>,
)
    requires
        answer_is(sent, answer),
    ensures
        is_plain(client_error_line(error)),
        answer matches Err(m) ==> is_plain(m@),
        is_plain(split_failure_line(detail)),
{
    reveal_strlit("karvex tmux-compat: ");
    reveal_strlit("no server running");
    reveal_strlit("server did not respond within 1500ms");
    reveal_strlit("malformed response from server");
    reveal_strlit("empty response from server");
    reveal_strlit("unexpected response from server");
    reveal_strlit("create pane failed: no space for new pane (too small): ");
}

/// What stands in a value under a dotted path.
pub open spec fn dotted(value: Json, path: Seq<char>) -> Option<Json>
    decreases path.len(),
    via dotted_decreases
{
    match split_once(path, '.') {
        None => member(value, path),
        Some((first, rest)) => match member(value, first) {
            Some(next) => dotted(next, rest),
            None => None,
        },
    }
}

#[via_fn]
proof fn dotted_decreases(value: Json, path: Seq<char>) {
    crate::text::lemma_split_once(path, '.');
}

/// The text under the first of the paths that has one, from `i` on.
pub open spec fn first_text(result: Json, paths: Seq<&str>, i: int) -> Option<Seq<char>>
    decreases paths.len() - i,
{
    if i >= paths.len() {
        None
    } else {
        match dotted(result, paths[i]@) {
            Some(Json::Str(s)) => Some(s@),
            _ => first_text(result, paths, i + 1),
        }
    }
}

fn find_dotted<'a>(value: &'a Json, path: &str) -> (r: Option<&'a Json>)
    ensures
        match (r, dotted(*value, path@)) {
            (Some(v), Some(want)) => *v == want,
            (None, None) => true,
            _ => false,
        },
    decreases path@.len(),
{
    match split_once_at(path, '.') {
        None => value.get(path),
        Some((first, rest)) => {
            proof {
                crate::text::lemma_split_once(path@, '.');
            }
            match value.get(first.as_str()) {
                Some(next) => find_dotted(next, rest.as_str()),
                None => None,
            }
        },
    }
}

/// The text of a reply's result under the first of the dotted paths that has one.
pub fn result_str(response: &Json, paths: &[&str]) -> (r: Option<String>)
    ensures
        opt_text(r) == (match member(*response, "result"@) {
            Some(result) => first_text(result, paths@, 0),
            None => None,
        }),
{
    let result = match response.get("result") {
        Some(v) => v,
        None => {
            return None;
        },
    };
    let mut i: usize = 0;
    while i < paths.len()
        invariant
            i <= paths@.len(),
            member(*response, "result"@) == Some(*result),
            first_text(*result, paths@, 0) == first_text(*result, paths@, i as int),
        decreases paths@.len() - i,
    {
        match find_dotted(result, paths[i]) {
            Some(Json::Str(s)) => {
                return Some(s.clone());
            },
            _ => {},
        }
        i = i + 1;
    }
    None
}

// ---------------------------------------------------------------------------
// Panes
// ---------------------------------------------------------------------------

/// A pane of the server. `number` is what the number in its id stands for.
#[derive(Debug, PartialEq, Eq)]
pub struct ShimPane {
    pub pane_id: String,
    pub tab_id: String,
    pub number: Option<u64>,
    pub cwd: Option<String>,
    pub foreground_cwd: Option<String>,
}

/// The first pane with this id, from `i` on.
pub open spec fn pane_at(panes: Seq<ShimPane>, id: Seq<char>, i: int) -> Option<ShimPane>
    decreases panes.len() - i,
{
    if i >= panes.len() {
        None
    } else if panes[i].pane_id@ == id {
        Some(panes[i])
    } else {
        pane_at(panes, id, i + 1)
    }
}

fn find_pane<'a>(panes: &'a Vec<ShimPane>, id: &str) -> (r: Option<&'a ShimPane>)
    ensures
        match (r, pane_at(panes@, id@, 0)) {
            (Some(p), Some(want)) => *p == want,
            (None, None) => true,
            _ => false,
        },
{
    let mut i: usize = 0;
    while i < panes.len()
        invariant
            i <= panes@.len(),
            pane_at(panes@, id@, 0) == pane_at(panes@, id@, i as int),
        decreases panes@.len() - i,
    {
        if str_eq(panes[i].pane_id.as_str(), id) {
            return Some(&panes[i]);
        }
        i = i + 1;
    }
    None
}

/// Whether a pane of this tab is there, from `i` on.
pub open spec fn has_tab(panes: Seq<ShimPane>, tab: Seq<char>, i: int) -> bool
    decreases panes.len() - i,
{
    i < panes.len() && (panes[i].tab_id@ == tab || has_tab(panes, tab, i + 1))
}

/// The tab that a target names: that of the pane it is, or itself.
pub open spec fn window_of(panes: Seq<ShimPane>, target: Seq<char>) -> Option<Seq<char>> {
    match pane_at(panes, inner_pane_id(target), 0) {
        Some(pane) => Some(pane.tab_id@),
        None => if has_tab(panes, inner_window_id(target), 0) {
            Some(inner_window_id(target))
        } else {
            None
        },
    }
}

fn find_window(panes: &Vec<ShimPane>, target: &str) -> (r: Option<String>)
    ensures
        opt_text(r) == window_of(panes@, target@),
{
    let pane_target = decode_pane_id(target);
    match find_pane(panes, pane_target.as_str()) {
        Some(pane) => {
            return Some(pane.tab_id.clone());
        },
        None => {},
    }
    let window = decode_window_id(target);
    let mut i: usize = 0;
    while i < panes.len()
        invariant
            i <= panes@.len(),
            has_tab(panes@, window@, 0) == has_tab(panes@, window@, i as int),
            window@ == inner_window_id(target@),
            pane_at(panes@, inner_pane_id(target@), 0) is None,
        decreases panes@.len() - i,
    {
        if str_eq(panes[i].tab_id.as_str(), window.as_str()) {
            return Some(window);
        }
        i = i + 1;
    }
    None
}

/// The place of a pane in the order of creation.
pub open spec fn place(pane: ShimPane) -> u64 {
    ordinal(pane.pane_id@, pane.number)
}

/// `pane` put among panes in order, behind those of its place.
pub open spec fn with_pane_in_order(panes: Seq<ShimPane>, pane: ShimPane) -> Seq<ShimPane>
    decreases panes.len(),
{
    if panes.len() == 0 || place(panes.last()) <= place(pane) {
        panes.push(pane)
    } else {
        with_pane_in_order(panes.drop_last(), pane).push(panes.last())
    }
}

/// The panes of a tab, oldest first.
pub open spec fn panes_of_tab(panes: Seq<ShimPane>, tab: Seq<char>) -> Seq<ShimPane>
    decreases panes.len(),
{
    if panes.len() == 0 {
        Seq::empty()
    } else {
        let before = panes_of_tab(panes.drop_last(), tab);
        if panes.last().tab_id@ == tab {
            with_pane_in_order(before, panes.last())
        } else {
            before
        }
    }
}

fn add_in_order(panes: &mut Vec<ShimPane>, pane: ShimPane)
    ensures
        final(panes)@ == with_pane_in_order(old(panes)@, pane),
{
    let key = pane_ordinal(pane.pane_id.as_str(), pane.number);
    let ghost all = panes@;
    let mut n: usize = panes.len();
    assert(all.take(n as int) =~= all);
    assert(all.subrange(n as int, all.len() as int) =~= Seq::<ShimPane>::empty());
    assert(with_pane_in_order(all, pane) =~= with_pane_in_order(all.take(n as int), pane)
        + all.subrange(n as int, all.len() as int));
    while n > 0 && pane_ordinal(panes[n - 1].pane_id.as_str(), panes[n - 1].number) > key
        invariant
            n <= panes@.len(),
            panes@ == all,
            key == place(pane),
            with_pane_in_order(all, pane) == with_pane_in_order(all.take(n as int), pane)
                + all.subrange(n as int, all.len() as int),
        decreases n,
    {
        proof {
            let head = all.take(n as int);
            assert(head.last() == all[n - 1]);
            assert(head.drop_last() =~= all.take(n - 1));
            assert(with_pane_in_order(all.take(n - 1), pane).push(all[n - 1]) + all.subrange(
                n as int,
                all.len() as int,
            ) =~= with_pane_in_order(all.take(n - 1), pane) + all.subrange(
                n - 1,
                all.len() as int,
            ));
        }
        n = n - 1;
    }
    proof {
        let head = all.take(n as int);
        if n > 0 {
            assert(head.last() == all[n - 1]);
        }
        assert(with_pane_in_order(head, pane) == head.push(pane));
        assert(all.insert(n as int, pane) =~= head.push(pane) + all.subrange(
            n as int,
            all.len() as int,
        ));
    }
    panes.insert(n, pane);
}

fn tab_panes(panes: Vec<ShimPane>, tab: &str) -> (r: Vec<ShimPane>)
    ensures
        r@ == panes_of_tab(panes@, tab@),
{
    let ghost all = panes@;
    let mut rest = panes;
    let mut out: Vec<ShimPane> = Vec::new();
    let ghost mut done: int = 0;
    assert(all.take(0) =~= Seq::<ShimPane>::empty());
    assert(all.skip(0) =~= all);
    while rest.len() > 0
        invariant
            0 <= done <= all.len(),
            rest@ == all.skip(done),
            out@ == panes_of_tab(all.take(done), tab@),
        decreases rest@.len(),
    {
        let pane = rest.remove(0);
        proof {
            assert(pane == all[done]);
            assert(all.take(done + 1).drop_last() =~= all.take(done));
            assert(rest@ =~= all.skip(done + 1));
            done = done + 1;
        }
        if str_eq(pane.tab_id.as_str(), tab) {
            add_in_order(&mut out, pane);
        }
    }
    assert(all.take(all.len() as int) =~= all);
    out
}

/// The panes of a tab are listed by their place, each once, and no other.
pub proof fn law_panes_are_listed_oldest_first(panes: Seq<ShimPane>, tab: Seq<char>)
    ensures
        forall|i: int, j: int|
            0 <= i < j < panes_of_tab(panes, tab).len() ==> place(
                #[trigger] panes_of_tab(panes, tab)[i],
            ) <= place(#[trigger] panes_of_tab(panes, tab)[j]),
        panes_of_tab(panes, tab).to_multiset() == panes.filter(
            |p: ShimPane| p.tab_id@ == tab,
        ).to_multiset(),
    decreases panes.len(),
{
    broadcast use vstd::seq_lib::group_to_multiset_ensures;

    reveal(Seq::filter);
    if panes.len() > 0 {
        let front = panes.drop_last();
        law_panes_are_listed_oldest_first(front, tab);
        if panes.last().tab_id@ == tab {
            lemma_in_order(panes_of_tab(front, tab), panes.last());
        }
    }
}

proof fn lemma_in_order_bounded(panes: Seq<ShimPane>, pane: ShimPane, bound: u64)
    requires
        place(pane) <= bound,
        forall|i: int| 0 <= i < panes.len() ==> place(#[trigger] panes[i]) <= bound,
    ensures
        forall|i: int|
            0 <= i < with_pane_in_order(panes, pane).len() ==> place(
                #[trigger] with_pane_in_order(panes, pane)[i],
            ) <= bound,
    decreases panes.len(),
{
    let r = with_pane_in_order(panes, pane);
    if panes.len() == 0 || place(panes.last()) <= place(pane) {
        assert forall|i: int| 0 <= i < r.len() implies place(#[trigger] r[i]) <= bound by {
            if i < panes.len() {
                assert(r[i] == panes[i]);
            }
        }
    } else {
        let front = panes.drop_last();
        let inner = with_pane_in_order(front, pane);
        assert forall|i: int| 0 <= i < front.len() implies place(#[trigger] front[i]) <= bound by {
            assert(front[i] == panes[i]);
        }
        lemma_in_order_bounded(front, pane, bound);
        assert forall|i: int| 0 <= i < r.len() implies place(#[trigger] r[i]) <= bound by {
            if i < inner.len() {
                assert(r[i] == inner[i]);
            } else {
                assert(r[i] == panes[panes.len() - 1]);
            }
        }
    }
}

proof fn lemma_in_order(panes: Seq<ShimPane>, pane: ShimPane)
    requires
        forall|i: int, j: int|
            0 <= i < j < panes.len() ==> place(#[trigger] panes[i]) <= place(#[trigger] panes[j]),
    ensures
        forall|i: int, j: int|
            0 <= i < j < with_pane_in_order(panes, pane).len() ==> place(
                #[trigger] with_pane_in_order(panes, pane)[i],
            ) <= place(#[trigger] with_pane_in_order(panes, pane)[j]),
        with_pane_in_order(panes, pane).to_multiset() == panes.to_multiset().insert(pane),
    decreases panes.len(),
{
    broadcast use vstd::seq_lib::group_to_multiset_ensures;

    let r = with_pane_in_order(panes, pane);
    if panes.len() == 0 || place(panes.last()) <= place(pane) {
        assert forall|i: int, j: int| 0 <= i < j < r.len() implies place(#[trigger] r[i]) <= place(
            #[trigger] r[j],
        ) by {
            if i < panes.len() - 1 {
                assert(place(panes[i]) <= place(panes[panes.len() - 1]));
            }
        }
    } else {
        let front = panes.drop_last();
        let inner = with_pane_in_order(front, pane);
        let top = place(panes.last());
        assert forall|i: int, j: int| 0 <= i < j < front.len() implies place(#[trigger] front[i])
            <= place(#[trigger] front[j]) by {
            assert(place(panes[i]) <= place(panes[j]));
        }
        lemma_in_order(front, pane);
        assert forall|i: int| 0 <= i < front.len() implies place(#[trigger] front[i]) <= top by {
            assert(place(panes[i]) <= place(panes[panes.len() - 1]));
        }
        lemma_in_order_bounded(front, pane, top);
        assert(r == inner.push(panes.last()));
        assert(panes =~= front.push(panes.last()));
        assert(r.to_multiset() =~= panes.to_multiset().insert(pane));
    }
}

/// What listing the panes came to. `parsed` is what the list in the reply holds.
pub fn pane_list(answer: Result<Reply, String>, parsed: Result<Vec<ShimPane>, String>) -> (r: Result<
    Vec<ShimPane>,
    String,
>)
    ensures
        match answer {
            Err(m) => r == Err::<Vec<ShimPane>, String>(m),
            Ok(reply) => match (dotted(reply.value, "result.panes"@), parsed) {
                (None, _) => r matches Err(e) && e@ == ERROR_PREFIX@
                    + "pane.list returned no panes"@,
                (Some(_), Ok(panes)) => r == Ok::<Vec<ShimPane>, String>(panes),
                (Some(_), Err(m)) => r matches Err(e) && e@ == ERROR_PREFIX@
                    + "could not read pane.list: "@ + plain_line(m@),
            },
        },
{
    match answer {
        Err(m) => Err(m),
        Ok(reply) => match find_dotted(&reply.value, "result.panes") {
            None => Err(cat2(ERROR_PREFIX, "pane.list returned no panes")),
            Some(_) => match parsed {
                Ok(panes) => Ok(panes),
                Err(m) => Err(
                    cat3(
                        ERROR_PREFIX,
                        "could not read pane.list: ",
                        plain_text(m.as_str()).as_str(),
                    ),
                ),
            },
        },
    }
}

// ---------------------------------------------------------------------------
// Steps
// ---------------------------------------------------------------------------

/// The requests that are sent on behalf of `tmux`.
#[allow(inconsistent_fields)]
#[derive(Debug, PartialEq, Eq)]
pub enum ShimMethod {
    PaneCurrent,
    PaneSplit {
        target_pane_id: String,
        direction: SplitDirection,
        percent: Option<String>,
        cwd: Option<String>,
        focus: bool,
    },
    PaneSendInput { pane_id: String, text: String, keys: Vec<String> },
    /// The visible screen of a pane, as text.
    PaneRead { pane_id: String },
    PaneRename { pane_id: String, label: String },
    PaneClose { pane_id: String },
    /// What a source has to tell of a pane: one token, which nothing takes away.
    PaneReportMetadata {
        pane_id: String,
        source: String,
        token: String,
        value: Option<String>,
        seq: u64,
    },
}

/// What is done with the pane that a command applies to.
#[allow(inconsistent_fields)]
#[derive(Debug, PartialEq, Eq)]
pub enum PaneUse {
    PrintPane,
    PrintWindow,
    ListTab,
    Split(SplitPlan),
    Respawn { command: Option<String> },
    Kill,
    SendKeys { text: String, keys: Vec<String> },
    Accent { colour: Option<String> },
}

/// What is done with the answer to a request.
#[allow(inconsistent_fields)]
#[derive(Debug, PartialEq, Eq)]
pub enum AnswerPending {
    CurrentPane(PaneUse),
    Split { print: bool },
    /// Look whether a shell has settled, for the `attempt`th time.
    Ready { pane_id: String, command: String, attempt: u32, previous: Option<String> },
    ClearLine { pane_id: String, command: String },
    Quiet,
}

/// What is done with the list of all panes.
#[allow(inconsistent_fields)]
#[derive(Debug, PartialEq, Eq)]
pub enum PanesPending {
    PrintWindow { pane_id: String },
    TabOf { pane_id: String },
    FindWindow { target: String },
    ListTab { tab_id: String },
    SplitPane { pane_id: String, plan: SplitPlan },
    SplitWindow { target: String, plan: SplitPlan },
    SplitTab { tab_id: String, target: String, plan: SplitPlan },
}

/// What comes next.
#[allow(inconsistent_fields)]
#[derive(Debug, PartialEq, Eq)]
pub enum ShimStep {
    Exit(i32),
    /// A request, after a pause of `delay_ms` milliseconds.
    Request { id: String, delay_ms: u64, method: ShimMethod, then: AnswerPending },
    ListPanes { then: PanesPending },
    /// The invocation is left to the real program.
    Passthrough,
}

/// The request a step makes at once under `id`, and what follows it.
pub open spec fn requested(step: ShimStep, id: Seq<char>) -> Option<(ShimMethod, AnswerPending)> {
    match step {
        ShimStep::Request { id: i, delay_ms, method, then } => if i@ == id && delay_ms == 0 {
            Some((method, then))
        } else {
            None
        },
        _ => None,
    }
}

fn request(id: &str, method: ShimMethod, then: AnswerPending) -> (r: ShimStep)
    ensures
        requested(r, id@) == Some((method, then)),
{
    ShimStep::Request { id: id.to_owned(), delay_ms: 0, method, then }
}

/// The invocation failed, and this is told of it as one line.
pub open spec fn shim_fails(before: Console, after: Console, step: ShimStep, line: Seq<char>) -> bool {
    step == ShimStep::Exit(1) && shows(before, after, 1, complaint(one_line(line), 1))
}

/// An invocation that fails says so in one line on standard error, whatever it has to
/// tell, and nothing else. A line without line breaks is told as it is.
pub proof fn law_an_invocation_fails_in_one_line(
    before: Console,
    after: Console,
    step: ShimStep,
    line: Seq<char>,
)
    requires
        shim_fails(before, after, step, line),
    ensures
        after.out_lines() == before.out_lines(),
        after.err_lines().len() == before.err_lines().len() + 1,
        is_one_line(after.err_lines().last()),
        is_one_line(line) ==> after.err_lines().last() == line,
{
    if is_one_line(line) {
        assert(one_line(line) =~= line);
    }
}

/// The invocation is over, having printed these lines.
pub open spec fn shim_prints(
    before: Console,
    after: Console,
    step: ShimStep,
    lines: Seq<Seq<char>>,
) -> bool {
    step == ShimStep::Exit(0) && shows(before, after, 0, success(lines))
}

fn fail(line: &str, console: &mut Console) -> (r: ShimStep)
    ensures
        shim_fails(*old(console), *final(console), r, line@),
{
    ShimStep::Exit(console.complain(line_text(line).as_str(), 1))
}

fn print_one(line: String, console: &mut Console) -> (r: ShimStep)
    ensures
        shim_prints(*old(console), *final(console), r, seq![line@]),
{
    let mut out: Vec<String> = Vec::new();
    out.push(line);
    assert(texts(out@) =~= seq![line@]);
    ShimStep::Exit(console.succeed(&out))
}

/// The first look at a shell.
pub open spec fn looks_at_shell(step: ShimStep, pane: Seq<char>, command: Seq<char>) -> bool {
    requested(step, "tmux-compat:pane:read"@) matches Some(
        (ShimMethod::PaneRead { pane_id }, AnswerPending::Ready { pane_id: p, command: c, attempt, previous }),
    ) && pane_id@ == pane && p@ == pane && c@ == command && attempt == 0 && previous is None
}

/// What is done with a pane.
pub open spec fn pane_used(
    usage: PaneUse,
    pane: Seq<char>,
    seq: u64,
    before: Console,
    after: Console,
    step: ShimStep,
) -> bool {
    match usage {
        PaneUse::PrintPane => shim_prints(before, after, step, seq![outer_pane_id(pane)]),
        PaneUse::PrintWindow => after == before && (step matches ShimStep::ListPanes {
            then: PanesPending::PrintWindow { pane_id },
        } && pane_id@ == pane),
        PaneUse::ListTab => after == before && (step matches ShimStep::ListPanes {
            then: PanesPending::TabOf { pane_id },
        } && pane_id@ == pane),
        PaneUse::Split(plan) => after == before && (step matches ShimStep::ListPanes {
            then: PanesPending::SplitPane { pane_id, plan: p },
        } && pane_id@ == pane && p == plan),
        PaneUse::Respawn { command } => after == before && match command {
            None => step == ShimStep::Exit(0),
            Some(c) => looks_at_shell(step, pane, c@),
        },
        PaneUse::Kill => after == before && (requested(step, "tmux-compat:pane:close"@) matches Some(
            (ShimMethod::PaneClose { pane_id }, AnswerPending::Quiet),
        ) && pane_id@ == pane),
        PaneUse::SendKeys { text, keys } => after == before && (requested(
            step,
            "tmux-compat:pane:send"@,
        ) matches Some(
            (ShimMethod::PaneSendInput { pane_id, text: t, keys: k }, AnswerPending::Quiet),
        ) && pane_id@ == pane && t == text && k == keys),
        PaneUse::Accent { colour } => after == before && (requested(
            step,
            "tmux-compat:pane:report-metadata"@,
        ) matches Some(
            (
                ShimMethod::PaneReportMetadata { pane_id, source, token, value, seq: s },
                AnswerPending::Quiet,
            ),
        ) && pane_id@ == pane && source@ == "karvex:tmux-compat"@ && token@ == "agent_accent"@
            && value == colour && s == seq),
    }
}

/// The count under which a step tells of an accent, where it does.
pub open spec fn told_under(step: ShimStep) -> Option<u64> {
    match step {
        ShimStep::Request { method: ShimMethod::PaneReportMetadata { seq, .. }, .. } => Some(seq),
        _ => None,
    }
}

/// A step that tells of an accent takes the next count, and no other step takes any.
pub open spec fn counted(step: ShimStep, before: u64, after: u64) -> bool {
    match told_under(step) {
        Some(seq) => seq == before && after == count_after(before),
        None => after == before,
    }
}

/// Of two accents that are told one after the other, the later has the higher count, as
/// long as the counter has not come to its end.
pub proof fn law_accents_are_told_in_order(
    first: ShimStep,
    second: ShimStep,
    start: u64,
    between: u64,
    end: u64,
)
    requires
        counted(first, start, between),
        counted(second, between, end),
        told_under(first) is Some,
        told_under(second) is Some,
        start < u64::MAX,
    ensures
        told_under(first)->0 < told_under(second)->0,
{
}

fn use_pane(
    usage: PaneUse,
    pane_id: String,
    counter: &mut AccentCounter,
    console: &mut Console,
) -> (r: ShimStep)
    ensures
        pane_used(usage, pane_id@, old(counter).next, *old(console), *final(console), r),
        counted(r, old(counter).next, final(counter).next),
{
    match usage {
        PaneUse::PrintPane => print_one(encode_pane_id(pane_id.as_str()), console),
        PaneUse::PrintWindow => ShimStep::ListPanes { then: PanesPending::PrintWindow { pane_id } },
        PaneUse::ListTab => ShimStep::ListPanes { then: PanesPending::TabOf { pane_id } },
        PaneUse::Split(plan) => ShimStep::ListPanes {
            then: PanesPending::SplitPane { pane_id, plan },
        },
        PaneUse::Respawn { command } => match command {
            None => ShimStep::Exit(0),
            Some(c) => request(
                "tmux-compat:pane:read",
                ShimMethod::PaneRead { pane_id: pane_id.clone() },
                AnswerPending::Ready { pane_id, command: c, attempt: 0, previous: None },
            ),
        },
        PaneUse::Kill => request(
            "tmux-compat:pane:close",
            ShimMethod::PaneClose { pane_id },
            AnswerPending::Quiet,
        ),
        PaneUse::SendKeys { text, keys } => request(
            "tmux-compat:pane:send",
            ShimMethod::PaneSendInput { pane_id, text, keys },
            AnswerPending::Quiet,
        ),
        PaneUse::Accent { colour } => request(
            "tmux-compat:pane:report-metadata",
            ShimMethod::PaneReportMetadata {
                pane_id,
                source: ACCENT_METADATA_SOURCE.to_owned(),
                token: AGENT_ACCENT_TOKEN_KEY.to_owned(),
                value: colour,
                seq: counter.next_accent_seq(),
            },
            AnswerPending::Quiet,
        ),
    }
}

/// What the environment of an invocation holds. The files are those that the
/// requested socket and our own lead to.
#[derive(Debug, PartialEq, Eq)]
pub struct ShimEnv {
    pub socket_path: Option<String>,
    pub tmux: Option<String>,
    pub requested_file: Option<String>,
    pub own_file: Option<String>,
    pub tmux_pane: Option<String>,
    pub karvex_pane_id: Option<String>,
    pub term: Option<String>,
}

/// The pane the environment names. An id that only a real tmux gives out is not
/// trusted.
pub open spec fn env_pane(env: ShimEnv) -> Option<Seq<char>> {
    let own = match env.karvex_pane_id {
        Some(v) => if trim(v@).len() > 0 {
            Some(trim(v@))
        } else {
            None
        },
        None => None,
    };
    match env.tmux_pane {
        Some(v) => {
            let id = inner_pane_id(trim(v@));
            if id.len() > 0 && !"%"@.is_prefix_of(id) {
                Some(id)
            } else {
                own
            }
        },
        None => own,
    }
}

fn pane_from_env(env: &ShimEnv) -> (r: Option<String>)
    ensures
        opt_text(r) == env_pane(*env),
{
    match &env.tmux_pane {
        Some(v) => {
            let id = decode_pane_id(trim_str(v.as_str()).as_str());
            if !id.as_str().is_empty() && !looks_like_foreign_pane_id(id.as_str()) {
                return Some(id);
            }
        },
        None => {},
    }
    match &env.karvex_pane_id {
        Some(v) => if is_blank(v.as_str()) {
            None
        } else {
            Some(trim_str(v.as_str()))
        },
        None => None,
    }
}

/// What a command does with the pane it applies to: the target, else the pane the
/// environment names, else the one the server calls current.
pub open spec fn pane_resolved(
    target: Option<Seq<char>>,
    usage: PaneUse,
    env: ShimEnv,
    seq: u64,
    before: Console,
    after: Console,
    step: ShimStep,
) -> bool {
    match (target, env_pane(env)) {
        (Some(t), _) => pane_used(usage, inner_pane_id(t), seq, before, after, step),
        (None, Some(p)) => pane_used(usage, p, seq, before, after, step),
        (None, None) => after == before && requested(step, "tmux-compat:pane:current"@) == Some(
            (ShimMethod::PaneCurrent, AnswerPending::CurrentPane(usage)),
        ),
    }
}

fn resolve_pane(
    target: Option<String>,
    usage: PaneUse,
    env: &ShimEnv,
    counter: &mut AccentCounter,
    console: &mut Console,
) -> (r: ShimStep)
    ensures
        pane_resolved(
            opt_text(target),
            usage,
            *env,
            old(counter).next,
            *old(console),
            *final(console),
            r,
        ),
        counted(r, old(counter).next, final(counter).next),
{
    match target {
        Some(t) => use_pane(usage, decode_pane_id(t.as_str()), counter, console),
        None => match pane_from_env(env) {
            Some(p) => use_pane(usage, p, counter, console),
            None => request(
                "tmux-compat:pane:current",
                ShimMethod::PaneCurrent,
                AnswerPending::CurrentPane(usage),
            ),
        },
    }
}

// ---------------------------------------------------------------------------
// Subcommands
// ---------------------------------------------------------------------------

/// What `display-message` does.
pub open spec fn display_message_step(
    args: Seq<Seq<char>>,
    env: ShimEnv,
    seq: u64,
    before: Console,
    after: Console,
    step: ShimStep,
) -> bool {
    let target = flag_text(args, "-t"@, 0);
    match format_named(format_text(args)) {
        DisplayFormat::PaneId => pane_resolved(
            target,
            PaneUse::PrintPane,
            env,
            seq,
            before,
            after,
            step,
        ),
        DisplayFormat::WindowId => pane_resolved(
            target,
            PaneUse::PrintWindow,
            env,
            seq,
            before,
            after,
            step,
        ),
        DisplayFormat::ClientControlMode => shim_prints(before, after, step, seq!["0"@]),
        DisplayFormat::ClientTermtype => shim_prints(
            before,
            after,
            step,
            seq![
                match env.term {
                    Some(t) => t@,
                    None => Seq::empty(),
                },
            ],
        ),
        DisplayFormat::Unsupported => shim_prints(before, after, step, seq![Seq::empty()]),
    }
}

fn display_message(
    args: &[String],
    env: &ShimEnv,
    counter: &mut AccentCounter,
    console: &mut Console,
) -> (r: ShimStep)
    ensures
        display_message_step(
            texts(args@),
            *env,
            old(counter).next,
            *old(console),
            *final(console),
            r,
        ),
        counted(r, old(counter).next, final(counter).next),
{
    let plan = plan_display_message(args);
    match plan.format {
        DisplayFormat::PaneId => resolve_pane(
            plan.target,
            PaneUse::PrintPane,
            env,
            counter,
            console,
        ),
        DisplayFormat::WindowId => resolve_pane(
            plan.target,
            PaneUse::PrintWindow,
            env,
            counter,
            console,
        ),
        DisplayFormat::ClientControlMode => print_one("0".to_owned(), console),
        DisplayFormat::ClientTermtype => {
            let term = match &env.term {
                Some(t) => t.clone(),
                None => String::new(),
            };
            print_one(term, console)
        },
        DisplayFormat::Unsupported => print_one(String::new(), console),
    }
}

/// What `respawn-pane` does.
pub open spec fn respawn_step(
    args: Seq<Seq<char>>,
    env: ShimEnv,
    seq: u64,
    before: Console,
    after: Console,
    step: ShimStep,
) -> bool {
    exists|command: Option<String>|
        opt_text(command) == command_after(args) && #[trigger] pane_resolved(
            flag_text(before_separator(args), "-t"@, 0),
            PaneUse::Respawn { command },
            env,
            seq,
            before,
            after,
            step,
        )
}

fn respawn_pane(
    args: &[String],
    env: &ShimEnv,
    counter: &mut AccentCounter,
    console: &mut Console,
) -> (r: ShimStep)
    ensures
        respawn_step(texts(args@), *env, old(counter).next, *old(console), *final(console), r),
        counted(r, old(counter).next, final(counter).next),
{
    let plan = plan_respawn_pane(args);
    let ghost command = plan.command;
    let step = resolve_pane(
        plan.target,
        PaneUse::Respawn { command: plan.command },
        env,
        counter,
        console,
    );
    assert(pane_resolved(
        flag_text(before_separator(texts(args@)), "-t"@, 0),
        PaneUse::Respawn { command },
        *env,
        old(counter).next,
        *old(console),
        *console,
        step,
    ));
    step
}

/// What `split-window` does.
pub open spec fn split_step(
    args: Seq<Seq<char>>,
    env: ShimEnv,
    seq: u64,
    before: Console,
    after: Console,
    step: ShimStep,
) -> bool {
    exists|plan: SplitPlan| #[trigger]
        split_is(args, plan) && pane_resolved(
            opt_text(plan.target),
            PaneUse::Split(plan),
            env,
            seq,
            before,
            after,
            step,
        )
}

fn split_window(
    args: &[String],
    env: &ShimEnv,
    counter: &mut AccentCounter,
    console: &mut Console,
) -> (r: ShimStep)
    ensures
        split_step(texts(args@), *env, old(counter).next, *old(console), *final(console), r),
        counted(r, old(counter).next, final(counter).next),
{
    let plan = plan_split_window(args);
    assert(split_is(texts(args@), plan));
    resolve_pane(copy_opt(&plan.target), PaneUse::Split(plan), env, counter, console)
}

/// What an option that means this for the accent of a pane does.
pub open spec fn accent_step(
    plan: AccentPlan,
    target: Option<Seq<char>>,
    env: ShimEnv,
    seq: u64,
    before: Console,
    after: Console,
    step: ShimStep,
) -> bool {
    match plan {
        AccentPlan::NotAccent | AccentPlan::Unknown => step == ShimStep::Exit(0) && after
            == before,
        AccentPlan::Clear => pane_resolved(
            target,
            PaneUse::Accent { colour: None },
            env,
            seq,
            before,
            after,
            step,
        ),
        AccentPlan::SetTo(colour) => pane_resolved(
            target,
            PaneUse::Accent { colour: Some(colour) },
            env,
            seq,
            before,
            after,
            step,
        ),
    }
}

/// What `set-option` does: only what an option means for the accent of a pane matters.
pub open spec fn set_option_step(
    args: Seq<Seq<char>>,
    env: ShimEnv,
    seq: u64,
    before: Console,
    after: Console,
    step: ShimStep,
) -> bool {
    match (nth(positionals(args, 0), 0), nth(positionals(args, 0), 1)) {
        (Some(option), Some(value)) => exists|plan: AccentPlan| #[trigger]
            accent_is(option, value, plan) && accent_step(
                plan,
                flag_text(args, "-t"@, 0),
                env,
                seq,
                before,
                after,
                step,
            ),
        _ => step == ShimStep::Exit(0) && after == before,
    }
}

fn report_accent(
    plan: AccentPlan,
    target: Option<String>,
    env: &ShimEnv,
    counter: &mut AccentCounter,
    console: &mut Console,
) -> (r: ShimStep)
    ensures
        accent_step(
            plan,
            opt_text(target),
            *env,
            old(counter).next,
            *old(console),
            *final(console),
            r,
        ),
        counted(r, old(counter).next, final(counter).next),
{
    match plan {
        AccentPlan::NotAccent | AccentPlan::Unknown => ShimStep::Exit(0),
        AccentPlan::Clear => resolve_pane(
            target,
            PaneUse::Accent { colour: None },
            env,
            counter,
            console,
        ),
        AccentPlan::SetTo(colour) => resolve_pane(
            target,
            PaneUse::Accent { colour: Some(colour) },
            env,
            counter,
            console,
        ),
    }
}

fn set_option(
    args: &[String],
    env: &ShimEnv,
    counter: &mut AccentCounter,
    console: &mut Console,
) -> (r: ShimStep)
    ensures
        set_option_step(texts(args@), *env, old(counter).next, *old(console), *final(console), r),
        counted(r, old(counter).next, final(counter).next),
{
    let plan = plan_set_option(args);
    let ghost words = positionals(texts(args@), 0);
    let option = match plan.option {
        Some(option) => option,
        None => {
            return ShimStep::Exit(0);
        },
    };
    let value = match plan.value {
        Some(value) => value,
        None => {
            return ShimStep::Exit(0);
        },
    };
    assert(nth(words, 0) == Some(option@) && nth(words, 1) == Some(value@));
    let accent = plan_accent(option.as_str(), value.as_str());
    let ghost planned = accent;
    let step = report_accent(accent, plan.target, env, counter, console);
    assert(accent_is(nth(words, 0)->0, nth(words, 1)->0, planned));
    assert(accent_step(
        planned,
        flag_text(texts(args@), "-t"@, 0),
        *env,
        old(counter).next,
        *old(console),
        *console,
        step,
    ));
    step
}

/// What `send-keys` does.
pub open spec fn send_keys_step(
    args: Seq<Seq<char>>,
    env: ShimEnv,
    seq: u64,
    before: Console,
    after: Console,
    step: ShimStep,
) -> bool {
    exists|plan: SendKeysPlan| #[trigger]
        send_keys_is(args, plan) && pane_resolved(
            opt_text(plan.target),
            PaneUse::SendKeys { text: plan.text, keys: plan.keys },
            env,
            seq,
            before,
            after,
            step,
        )
}

fn send_keys(
    args: &[String],
    env: &ShimEnv,
    counter: &mut AccentCounter,
    console: &mut Console,
) -> (r: ShimStep)
    ensures
        send_keys_step(texts(args@), *env, old(counter).next, *old(console), *final(console), r),
        counted(r, old(counter).next, final(counter).next),
{
    let plan = plan_send_keys(args);
    let ghost planned = plan;
    assert(send_keys_is(texts(args@), planned));
    resolve_pane(
        plan.target,
        PaneUse::SendKeys { text: plan.text, keys: plan.keys },
        env,
        counter,
        console,
    )
}

/// What a served invocation does first.
pub open spec fn served(
    sub: Seq<char>,
    args: Seq<Seq<char>>,
    env: ShimEnv,
    seq: u64,
    before: Console,
    after: Console,
    step: ShimStep,
) -> bool {
    let target = flag_text(args, "-t"@, 0);
    if sub == "display-message"@ {
        display_message_step(args, env, seq, before, after, step)
    } else if sub == "list-panes"@ {
        match target {
            Some(t) => after == before && (step matches ShimStep::ListPanes {
                then: PanesPending::FindWindow { target: w },
            } && w@ == t),
            None => pane_resolved(None, PaneUse::ListTab, env, seq, before, after, step),
        }
    } else if sub == "split-window"@ || sub == "splitw"@ {
        split_step(args, env, seq, before, after, step)
    } else if sub == "respawn-pane"@ {
        respawn_step(args, env, seq, before, after, step)
    } else if sub == "set-option"@ || sub == "set"@ {
        set_option_step(args, env, seq, before, after, step)
    } else if sub == "select-pane"@ || sub == "selectp"@ {
        after == before && match (target, flag_text(args, "-T"@, 0)) {
            (Some(t), Some(title)) => requested(step, "tmux-compat:pane:rename"@) matches Some(
                (ShimMethod::PaneRename { pane_id, label }, AnswerPending::Quiet),
            ) && pane_id@ == inner_pane_id(t) && label@ == title,
            _ => step == ShimStep::Exit(0),
        }
    } else if sub == "kill-pane"@ || sub == "killp"@ {
        pane_resolved(target, PaneUse::Kill, env, seq, before, after, step)
    } else if sub == "show-options"@ {
        if has_text(args, "prefix"@) {
            shim_prints(before, after, step, seq!["prefix C-b"@])
        } else {
            step == ShimStep::Exit(0) && after == before
        }
    } else if sub == "send-keys"@ {
        send_keys_step(args, env, seq, before, after, step)
    } else {
        step == ShimStep::Exit(0) && after == before
    }
}

fn serve(
    sub: &str,
    args: &[String],
    env: &ShimEnv,
    counter: &mut AccentCounter,
    console: &mut Console,
) -> (r: ShimStep)
    ensures
        served(sub@, texts(args@), *env, old(counter).next, *old(console), *final(console), r),
        counted(r, old(counter).next, final(counter).next),
{
    if str_eq(sub, "display-message") {
        display_message(args, env, counter, console)
    } else if str_eq(sub, "list-panes") {
        match plan_list_panes(args).target {
            Some(target) => ShimStep::ListPanes { then: PanesPending::FindWindow { target } },
            None => resolve_pane(None, PaneUse::ListTab, env, counter, console),
        }
    } else if str_eq(sub, "split-window") || str_eq(sub, "splitw") {
        split_window(args, env, counter, console)
    } else if str_eq(sub, "respawn-pane") {
        respawn_pane(args, env, counter, console)
    } else if str_eq(sub, "set-option") || str_eq(sub, "set") {
        set_option(args, env, counter, console)
    } else if str_eq(sub, "select-pane") || str_eq(sub, "selectp") {
        let plan = plan_select_pane(args);
        match (plan.target, plan.title) {
            (Some(target), Some(title)) => request(
                "tmux-compat:pane:rename",
                ShimMethod::PaneRename { pane_id: decode_pane_id(target.as_str()), label: title },
                AnswerPending::Quiet,
            ),
            _ => ShimStep::Exit(0),
        }
    } else if str_eq(sub, "kill-pane") || str_eq(sub, "killp") {
        resolve_pane(plan_kill_pane(args).target, PaneUse::Kill, env, counter, console)
    } else if str_eq(sub, "show-options") {
        if plan_show_options(args).print_prefix {
            print_one("prefix C-b".to_owned(), console)
        } else {
            ShimStep::Exit(0)
        }
    } else if str_eq(sub, "send-keys") {
        send_keys(args, env, counter, console)
    } else {
        ShimStep::Exit(0)
    }
}

/// What an invocation does first.
pub open spec fn shim_started(
    args: Seq<Seq<char>>,
    env: ShimEnv,
    seq: u64,
    before: Console,
    after: Console,
    step: ShimStep,
) -> bool {
    let inv = invocation(args, 0, no_invocation());
    let socket = socket_of(opt_text(env.socket_path), opt_text(env.tmux));
    if inv.version_only {
        shim_prints(before, after, step, seq![COMPAT_VERSION@])
    } else if !serviced(inv, socket, opt_text(env.requested_file), opt_text(env.own_file)) {
        step is Passthrough && after == before
    } else {
        served(inv.subcommand->0, inv.args, env, seq, before, after, step)
    }
}

/// Starts an invocation. `args` are those behind the program's name.
pub fn run_shim(
    args: &[String],
    env: &ShimEnv,
    counter: &mut AccentCounter,
    console: &mut Console,
) -> (r: ShimStep)
    ensures
        shim_started(
            texts(args@),
            *env,
            old(counter).next,
            *old(console),
            *final(console),
            r,
        ),
        counted(r, old(counter).next, final(counter).next),
{
    let parsed = parse_invocation(args);
    if parsed.version_only {
        return print_one(COMPAT_VERSION.to_owned(), console);
    }
    let socket_path: Option<&str> = match &env.socket_path {
        Some(p) => Some(p.as_str()),
        None => None,
    };
    let tmux: Option<&str> = match &env.tmux {
        Some(t) => Some(t.as_str()),
        None => None,
    };
    let resolved = socket_from_env_values(socket_path, tmux);
    let ours: Option<&str> = match &resolved {
        Some(s) => Some(s.as_str()),
        None => None,
    };
    if !should_service(&parsed, ours, &env.requested_file, &env.own_file) {
        return ShimStep::Passthrough;
    }
    match &parsed.subcommand {
        Some(sub) => serve(sub.as_str(), parsed.args.as_slice(), env, counter, console),
        None => ShimStep::Passthrough,
    }
}

// ---------------------------------------------------------------------------
// Going on
// ---------------------------------------------------------------------------

/// A new pane is asked for.
pub open spec fn asks_split(step: ShimStep, pane: ShimPane, plan: SplitPlan) -> bool {
    requested(step, "tmux-compat:pane:split"@) matches Some(
        (
            ShimMethod::PaneSplit { target_pane_id, direction, percent, cwd, focus },
            AnswerPending::Split { print },
        ),
    ) && target_pane_id == pane.pane_id && direction == plan.direction && percent == plan.percent
        && cwd == (if pane.foreground_cwd is Some {
        pane.foreground_cwd
    } else {
        pane.cwd
    }) && focus == plan.focus && print == plan.print_pane_id
}

fn ask_split(pane: &ShimPane, plan: SplitPlan) -> (r: ShimStep)
    ensures
        asks_split(r, *pane, plan),
{
    let cwd = match &pane.foreground_cwd {
        Some(c) => Some(c.clone()),
        None => copy_opt(&pane.cwd),
    };
    request(
        "tmux-compat:pane:split",
        ShimMethod::PaneSplit {
            target_pane_id: pane.pane_id.clone(),
            direction: plan.direction,
            percent: plan.percent,
            cwd,
            focus: plan.focus,
        },
        AnswerPending::Split { print: plan.print_pane_id },
    )
}

/// The line about a pane that is not there.
pub open spec fn no_pane(id: Seq<char>) -> Seq<char> {
    "can't find pane: "@ + id
}

/// The line about a window that is not there.
pub open spec fn no_window(id: Seq<char>) -> Seq<char> {
    "can't find window: "@ + id
}

/// What follows the list of all panes.
pub open spec fn panes_handled(
    then: PanesPending,
    listed: Result<Vec<ShimPane>, String>,
    before: Console,
    after: Console,
    step: ShimStep,
) -> bool {
    match (then, listed) {
        (PanesPending::SplitPane { pane_id, plan }, Err(m)) => match plan.target {
            None => shim_fails(before, after, step, m@),
            Some(target) => after == before && step == (ShimStep::ListPanes {
                then: PanesPending::SplitWindow { target, plan },
            }),
        },
        (_, Err(m)) => shim_fails(before, after, step, m@),
        (PanesPending::PrintWindow { pane_id }, Ok(panes)) => match pane_at(panes@, pane_id@, 0) {
            Some(pane) => shim_prints(before, after, step, seq![outer_window_id(pane.tab_id@)]),
            None => shim_fails(before, after, step, no_pane(outer_pane_id(pane_id@))),
        },
        (PanesPending::TabOf { pane_id }, Ok(panes)) => match pane_at(panes@, pane_id@, 0) {
            Some(pane) => after == before && step == (ShimStep::ListPanes {
                then: PanesPending::ListTab { tab_id: pane.tab_id },
            }),
            None => shim_fails(before, after, step, no_pane(outer_pane_id(pane_id@))),
        },
        (PanesPending::FindWindow { target }, Ok(panes)) => match window_of(panes@, target@) {
            Some(tab) => after == before && (step matches ShimStep::ListPanes {
                then: PanesPending::ListTab { tab_id },
            } && tab_id@ == tab),
            None => shim_fails(before, after, step, no_window(target@)),
        },
        (PanesPending::ListTab { tab_id }, Ok(panes)) => shim_prints(
            before,
            after,
            step,
            panes_of_tab(panes@, tab_id@).map_values(
                |p: ShimPane| outer_pane_id(p.pane_id@),
            ),
        ),
        (PanesPending::SplitPane { pane_id, plan }, Ok(panes)) => match (
            pane_at(panes@, pane_id@, 0),
            plan.target,
        ) {
            (Some(pane), _) => after == before && asks_split(step, pane, plan),
            (None, None) => shim_fails(before, after, step, no_pane(outer_pane_id(pane_id@))),
            (None, Some(target)) => after == before && step == (ShimStep::ListPanes {
                then: PanesPending::SplitWindow { target, plan },
            }),
        },
        (PanesPending::SplitWindow { target, plan }, Ok(panes)) => match window_of(
            panes@,
            target@,
        ) {
            Some(tab) => after == before && (step matches ShimStep::ListPanes {
                then: PanesPending::SplitTab { tab_id, target: t, plan: p },
            } && tab_id@ == tab && t == target && p == plan),
            None => shim_fails(before, after, step, no_window(target@)),
        },
        (PanesPending::SplitTab { tab_id, target, plan }, Ok(panes)) => {
            let all = panes_of_tab(panes@, tab_id@);
            if all.len() > 0 {
                after == before && asks_split(step, all.last(), plan)
            } else {
                shim_fails(before, after, step, no_pane(target@))
            }
        },
    }
}

fn no_such_pane(pane_id: &str, console: &mut Console) -> (r: ShimStep)
    ensures
        shim_fails(*old(console), *final(console), r, no_pane(outer_pane_id(pane_id@))),
{
    fail(cat2("can't find pane: ", encode_pane_id(pane_id).as_str()).as_str(), console)
}

fn print_panes(panes: Vec<ShimPane>, tab_id: &str, console: &mut Console) -> (r: ShimStep)
    ensures
        shim_prints(
            *old(console),
            *final(console),
            r,
            panes_of_tab(panes@, tab_id@).map_values(|p: ShimPane| outer_pane_id(p.pane_id@)),
        ),
{
    let ghost all = panes_of_tab(panes@, tab_id@).map_values(
        |p: ShimPane| outer_pane_id(p.pane_id@),
    );
    let mine = tab_panes(panes, tab_id);
    let mut out: Vec<String> = Vec::new();
    let mut i: usize = 0;
    assert(texts(out@) =~= all.take(0));
    while i < mine.len()
        invariant
            i <= mine@.len(),
            all == mine@.map_values(|p: ShimPane| outer_pane_id(p.pane_id@)),
            texts(out@) == all.take(i as int),
        decreases mine@.len() - i,
    {
        out.push(encode_pane_id(mine[i].pane_id.as_str()));
        assert(all.take(i as int + 1) =~= all.take(i as int).push(all[i as int]));
        i = i + 1;
    }
    assert(all.take(all.len() as int) =~= all);
    ShimStep::Exit(console.succeed(&out))
}

/// Goes on with the list of all panes.
pub fn resume_panes(
    then: PanesPending,
    listed: Result<Vec<ShimPane>, String>,
    console: &mut Console,
) -> (r: ShimStep)
    ensures
        panes_handled(then, listed, *old(console), *final(console), r),
{
    let panes = match listed {
        Ok(panes) => panes,
        Err(m) => {
            return match then {
                PanesPending::SplitPane { pane_id: _, plan } => match copy_opt(&plan.target) {
                    None => fail(m.as_str(), console),
                    Some(target) => ShimStep::ListPanes {
                        then: PanesPending::SplitWindow { target, plan },
                    },
                },
                _ => fail(m.as_str(), console),
            };
        },
    };
    match then {
        PanesPending::PrintWindow { pane_id } => match find_pane(&panes, pane_id.as_str()) {
            Some(pane) => print_one(encode_window_id(pane.tab_id.as_str()), console),
            None => no_such_pane(pane_id.as_str(), console),
        },
        PanesPending::TabOf { pane_id } => match find_pane(&panes, pane_id.as_str()) {
            Some(pane) => ShimStep::ListPanes {
                then: PanesPending::ListTab { tab_id: pane.tab_id.clone() },
            },
            None => no_such_pane(pane_id.as_str(), console),
        },
        PanesPending::FindWindow { target } => match find_window(&panes, target.as_str()) {
            Some(tab_id) => ShimStep::ListPanes { then: PanesPending::ListTab { tab_id } },
            None => fail(cat2("can't find window: ", target.as_str()).as_str(), console),
        },
        PanesPending::ListTab { tab_id } => print_panes(panes, tab_id.as_str(), console),
        PanesPending::SplitPane { pane_id, plan } => match find_pane(&panes, pane_id.as_str()) {
            Some(pane) => ask_split(pane, plan),
            None => match copy_opt(&plan.target) {
                None => no_such_pane(pane_id.as_str(), console),
                Some(target) => ShimStep::ListPanes {
                    then: PanesPending::SplitWindow { target, plan },
                },
            },
        },
        PanesPending::SplitWindow { target, plan } => match find_window(&panes, target.as_str()) {
            Some(tab_id) => ShimStep::ListPanes {
                then: PanesPending::SplitTab { tab_id, target, plan },
            },
            None => fail(cat2("can't find window: ", target.as_str()).as_str(), console),
        },
        PanesPending::SplitTab { tab_id, target, plan } => {
            let mine = tab_panes(panes, tab_id.as_str());
            let n: usize = mine.len();
            if n > 0 {
                ask_split(&mine[n - 1], plan)
            } else {
                fail(cat2("can't find pane: ", target.as_str()).as_str(), console)
            }
        },
    }
}

/// How often a shell is looked at.
pub const SHELL_READY_POLLS: u32 = 10;

/// How long is waited in between, in milliseconds.
pub const SHELL_READY_INTERVAL_MS: u64 = 150;

/// The line of a shell is cleared, before the command is typed.
pub open spec fn clears_line(step: ShimStep, pane: Seq<char>, command: Seq<char>) -> bool {
    requested(step, "tmux-compat:pane:send"@) matches Some(
        (
            ShimMethod::PaneSendInput { pane_id, text, keys },
            AnswerPending::ClearLine { pane_id: p, command: c },
        ),
    ) && pane_id@ == pane && text@.len() == 0 && texts(keys@) == seq!["ctrl+u"@] && p@ == pane && c@
        == command
}

/// The shell is looked at once more, after a pause.
pub open spec fn looks_again(
    step: ShimStep,
    pane: Seq<char>,
    command: Seq<char>,
    attempt: int,
    previous: Option<Seq<char>>,
) -> bool {
    step matches ShimStep::Request {
        id,
        delay_ms,
        method: ShimMethod::PaneRead { pane_id },
        then: AnswerPending::Ready { pane_id: p, command: c, attempt: a, previous: prev },
    } && id@ == "tmux-compat:pane:read"@ && delay_ms == SHELL_READY_INTERVAL_MS && pane_id@ == pane
        && p@ == pane && c@ == command && a == attempt && opt_text(prev) == previous
}

/// The text of the screen in an answer.
pub open spec fn screen_text(answer: Result<Reply, String>) -> Option<Seq<char>> {
    match answer {
        Ok(reply) => Some(
            match member(reply.value, "result"@) {
                Some(result) => match dotted(result, "read.text"@) {
                    Some(Json::Str(s)) => s@,
                    _ => Seq::empty(),
                },
                None => Seq::empty(),
            },
        ),
        Err(_) => None,
    }
}

/// What follows a look at a shell: the command, once it has settled or has been looked
/// at often enough.
pub open spec fn shell_seen(
    pane: Seq<char>,
    command: Seq<char>,
    attempt: u32,
    previous: Option<Seq<char>>,
    screen: Option<Seq<char>>,
    step: ShimStep,
) -> bool {
    let ready = previous is Some && screen is Some && settled(previous->0, screen->0);
    if ready || attempt + 1 >= SHELL_READY_POLLS {
        clears_line(step, pane, command)
    } else {
        looks_again(
            step,
            pane,
            command,
            attempt + 1,
            if screen is Some {
                screen
            } else {
                previous
            },
        )
    }
}

/// The id of a new pane in a reply.
pub open spec fn new_pane_id(response: Json) -> Option<Seq<char>> {
    match member(response, "result"@) {
        Some(result) => match dotted(result, "pane.pane_id"@) {
            Some(Json::Str(s)) => Some(s@),
            _ => match dotted(result, "pane_id"@) {
                Some(Json::Str(s)) => Some(s@),
                _ => None,
            },
        },
        None => None,
    }
}

/// The id of the current pane in a reply.
pub open spec fn current_pane_id(response: Json) -> Option<Seq<char>> {
    match member(response, "result"@) {
        Some(result) => match dotted(result, "pane.pane_id"@) {
            Some(Json::Str(s)) => Some(s@),
            _ => None,
        },
        None => None,
    }
}

/// What follows the answer to a request.
pub open spec fn answer_handled(
    then: AnswerPending,
    answer: Result<Reply, String>,
    seq: u64,
    before: Console,
    after: Console,
    step: ShimStep,
) -> bool {
    match then {
        AnswerPending::CurrentPane(usage) => match answer {
            Err(m) => shim_fails(before, after, step, m@),
            Ok(reply) => match current_pane_id(reply.value) {
                Some(pane) => pane_used(usage, pane, seq, before, after, step),
                None => shim_fails(
                    before,
                    after,
                    step,
                    ERROR_PREFIX@ + "could not resolve the current pane"@,
                ),
            },
        },
        AnswerPending::Split { print } => match answer {
            Err(m) => shim_fails(before, after, step, split_failure_line(m@)),
            Ok(reply) => match new_pane_id(reply.value) {
                Some(pane) => if print {
                    shim_prints(before, after, step, seq![outer_pane_id(pane)])
                } else {
                    step == ShimStep::Exit(0) && after == before
                },
                None => shim_fails(
                    before,
                    after,
                    step,
                    split_failure_line("unexpected split response"@),
                ),
            },
        },
        AnswerPending::Ready { pane_id, command, attempt, previous } => after == before
            && shell_seen(
            pane_id@,
            command@,
            attempt,
            opt_text(previous),
            screen_text(answer),
            step,
        ),
        AnswerPending::ClearLine { pane_id, command } => match answer {
            Err(m) => shim_fails(before, after, step, m@),
            Ok(_) => after == before && (requested(step, "tmux-compat:pane:send"@) matches Some(
                (ShimMethod::PaneSendInput { pane_id: p, text, keys }, AnswerPending::Quiet),
            ) && p == pane_id && text == command && texts(keys@) == seq!["Enter"@]),
        },
        AnswerPending::Quiet => match answer {
            Err(m) => shim_fails(before, after, step, m@),
            Ok(_) => step == ShimStep::Exit(0) && after == before,
        },
    }
}

fn see_shell(
    pane_id: String,
    command: String,
    attempt: u32,
    previous: Option<String>,
    screen: Option<String>,
) -> (r: ShimStep)
    ensures
        shell_seen(
            pane_id@,
            command@,
            attempt,
            opt_text(previous),
            opt_text(screen),
            r,
        ),
{
    let ready = match (&previous, &screen) {
        (Some(p), Some(s)) => shell_looks_ready(p.as_str(), s.as_str()),
        _ => false,
    };
    if ready || attempt >= SHELL_READY_POLLS - 1 {
        let mut keys: Vec<String> = Vec::new();
        keys.push("ctrl+u".to_owned());
        assert(texts(keys@) =~= seq!["ctrl+u"@]);
        return request(
            "tmux-compat:pane:send",
            ShimMethod::PaneSendInput { pane_id: pane_id.clone(), text: String::new(), keys },
            AnswerPending::ClearLine { pane_id, command },
        );
    }
    let last = match screen {
        Some(s) => Some(s),
        None => previous,
    };
    ShimStep::Request {
        id: "tmux-compat:pane:read".to_owned(),
        delay_ms: SHELL_READY_INTERVAL_MS,
        method: ShimMethod::PaneRead { pane_id: pane_id.clone() },
        then: AnswerPending::Ready { pane_id, command, attempt: attempt + 1, previous: last },
    }
}

fn read_text(response: &Json, path: &str) -> (r: Option<String>)
    ensures
        opt_text(r) == (match member(*response, "result"@) {
            Some(result) => match dotted(result, path@) {
                Some(Json::Str(s)) => Some(s@),
                _ => None,
            },
            None => None,
        }),
{
    let paths: [&str; 1] = [path];
    let found = result_str(response, &paths);
    proof {
        match member(*response, "result"@) {
            Some(result) => {
                assert(first_text(result, paths@, 1) is None);
                assert(paths@[0]@ == path@);
            },
            None => {},
        }
    }
    found
}

/// Goes on with the answer to a request.
pub fn resume_answer(
    then: AnswerPending,
    answer: Result<Reply, String>,
    counter: &mut AccentCounter,
    console: &mut Console,
) -> (r: ShimStep)
    ensures
        answer_handled(then, answer, old(counter).next, *old(console), *final(console), r),
        counted(r, old(counter).next, final(counter).next),
{
    match then {
        AnswerPending::CurrentPane(usage) => match answer {
            Err(m) => fail(m.as_str(), console),
            Ok(reply) => match read_text(&reply.value, "pane.pane_id") {
                Some(pane) => use_pane(usage, pane, counter, console),
                None => fail(
                    cat2(ERROR_PREFIX, "could not resolve the current pane").as_str(),
                    console,
                ),
            },
        },
        AnswerPending::Split { print } => match answer {
            Err(m) => fail(split_failure(m.as_str()).as_str(), console),
            Ok(reply) => {
                let found = match read_text(&reply.value, "pane.pane_id") {
                    Some(pane) => Some(pane),
                    None => read_text(&reply.value, "pane_id"),
                };
                match found {
                    Some(pane) => if print {
                        print_one(encode_pane_id(pane.as_str()), console)
                    } else {
                        ShimStep::Exit(0)
                    },
                    None => fail(split_failure("unexpected split response").as_str(), console),
                }
            },
        },
        AnswerPending::Ready { pane_id, command, attempt, previous } => {
            let screen: Option<String> = match &answer {
                Ok(reply) => match read_text(&reply.value, "read.text") {
                    Some(t) => Some(t),
                    None => Some(String::new()),
                },
                Err(_) => None,
            };
            assert(opt_text(screen) == screen_text(answer));
            see_shell(pane_id, command, attempt, previous, screen)
        },
        AnswerPending::ClearLine { pane_id, command } => match answer {
            Err(m) => fail(m.as_str(), console),
            Ok(_) => {
                let mut keys: Vec<String> = Vec::new();
                keys.push("Enter".to_owned());
                assert(texts(keys@) =~= seq!["Enter"@]);
                request(
                    "tmux-compat:pane:send",
                    ShimMethod::PaneSendInput { pane_id, text: command, keys },
                    AnswerPending::Quiet,
                )
            },
        },
        AnswerPending::Quiet => match answer {
            Err(m) => fail(m.as_str(), console),
            Ok(_) => ShimStep::Exit(0),
        },
    }
}

/// A shell is never waited for beyond a fixed number of looks: each look counts up, and
/// the last is followed by the command.
pub proof fn law_a_shell_is_waited_for_only_so_often(
    pane: Seq<char>,
    command: Seq<char>,
    attempt: u32,
    previous: Option<Seq<char>>,
    screen: Option<Seq<char>>,
    step: ShimStep,
)
    requires
        shell_seen(pane, command, attempt, previous, screen, step),
    ensures
        clears_line(step, pane, command) || (step matches ShimStep::Request {
            then: AnswerPending::Ready { attempt: next, .. },
            ..
        } && next == attempt + 1 && next < SHELL_READY_POLLS),
        attempt + 1 >= SHELL_READY_POLLS ==> clears_line(step, pane, command),
{
}

// ---------------------------------------------------------------------------
// The real program
// ---------------------------------------------------------------------------

/// A file that may be the real program. `file` is the one its path leads to.
#[derive(Debug, PartialEq, Eq)]
pub struct Candidate {
    pub path: String,
    pub is_file: bool,
    pub file: Option<String>,
}

/// Whether a candidate is a program other than this one.
pub open spec fn is_real(c: Candidate, own: Option<Seq<char>>) -> bool {
    c.is_file && !(own is Some && opt_text(c.file) == own)
}

/// The first real one, from `i` on.
pub open spec fn first_real(cs: Seq<Candidate>, own: Option<Seq<char>>, i: int) -> Option<Seq<char>>
    decreases cs.len() - i,
{
    if i >= cs.len() {
        None
    } else if is_real(cs[i], own) {
        Some(cs[i].path@)
    } else {
        first_real(cs, own, i + 1)
    }
}

pub fn find_real_tmux(candidates: &Vec<Candidate>, own: &Option<String>) -> (r: Option<String>)
    ensures
        opt_text(r) == first_real(candidates@, opt_text(*own), 0),
{
    let mut i: usize = 0;
    while i < candidates.len()
        invariant
            i <= candidates@.len(),
            first_real(candidates@, opt_text(*own), 0) == first_real(
                candidates@,
                opt_text(*own),
                i as int,
            ),
        decreases candidates@.len() - i,
    {
        let c = &candidates[i];
        let ours = match (&c.file, own) {
            (Some(f), Some(o)) => str_eq(f.as_str(), o.as_str()),
            _ => false,
        };
        if c.is_file && !ours {
            return Some(c.path.clone());
        }
        i = i + 1;
    }
    None
}

/// This program is never taken for the real one.
pub proof fn law_the_shim_never_calls_itself(cs: Seq<Candidate>, own: Seq<char>, i: int)
    requires
        0 <= i,
        first_real(cs, Some(own), i) is Some,
    ensures
        exists|k: int|
            i <= k < cs.len() && is_real(#[trigger] cs[k], Some(own)) && opt_text(cs[k].file)
                != Some(own) && Some(cs[k].path@) == first_real(cs, Some(own), i),
    decreases cs.len() - i,
{
    if is_real(cs[i], Some(own)) {
        assert(opt_text(cs[i].file) != Some(own));
    } else {
        law_the_shim_never_calls_itself(cs, own, i + 1);
    }
}

/// What is told where there is no real program.
pub fn no_real_tmux(version_only: bool, console: &mut Console) -> (r: ShimStep)
    ensures
        if version_only {
            shim_prints(*old(console), *final(console), r, seq![COMPAT_VERSION@])
        } else {
            shim_fails(
                *old(console),
                *final(console),
                r,
                "no server running ("@ + ERROR_PREFIX@
                    + "real tmux not installed, and this invocation is outside the serviced Agent Teams surface)"@,
            )
        },
{
    if version_only {
        return print_one(COMPAT_VERSION.to_owned(), console);
    }
    fail(
        cat3(
            "no server running (",
            ERROR_PREFIX,
            "real tmux not installed, and this invocation is outside the serviced Agent Teams surface)",
        ).as_str(),
        console,
    )
}

} // verus!
