//! Paths as text, by the rules of the platform they are for.

use crate::text::{cat2, cat3, chars_of, str_eq, string_of};
use vstd::prelude::*;

verus! {

// ---------------------------------------------------------------------------
// Separators and prefixes
// ---------------------------------------------------------------------------

/// Whether a character separates the components of a path. Windows knows two.
pub open spec fn is_separator(c: char, windows: bool) -> bool {
    c == '/' || (windows && c == '\\')
}

/// What a path of Windows may begin with, before its components.
#[derive(Debug, Clone, Copy, PartialEq, Eq, Structural)]
pub enum PrefixKind {
    Nothing,
    /// `C:`
    Drive,
    /// `\\server\share`
    Share,
    /// `\\.\device`
    Device,
    /// `\\?\` and what it names, behind which only `\` separates.
    Verbatim,
}

/// Whether a character separates components behind a prefix of this kind.
pub open spec fn parts(c: char, kind: PrefixKind, windows: bool) -> bool {
    if kind == PrefixKind::Verbatim {
        c == '\\'
    } else {
        is_separator(c, windows)
    }
}

/// Whether a character is a letter of ASCII.
pub open spec fn is_letter(c: char) -> bool {
    ('a' <= c && c <= 'z') || ('A' <= c && c <= 'Z')
}

/// Whether a drive stands at `i`.
pub open spec fn drive_at(p: Seq<char>, i: int) -> bool {
    p.len() >= i + 2 && is_letter(p[i]) && p[i + 1] == ':'
}

/// Where the component that begins at `from` ends, on Windows.
pub open spec fn component_end(p: Seq<char>, from: int, kind: PrefixKind) -> int
    decreases p.len() - from,
{
    if from >= p.len() || parts(p[from], kind, true) {
        from
    } else {
        component_end(p, from + 1, kind)
    }
}

/// Where the second of two components ends, of which the first begins at `from`. A second
/// one that is empty does not count.
pub open spec fn pair_end(p: Seq<char>, from: int, kind: PrefixKind) -> int {
    let first = component_end(p, from, kind);
    let second = component_end(p, first + 1, kind);
    if first >= p.len() || second == first + 1 {
        first
    } else {
        second
    }
}

/// What a path begins with.
pub open spec fn prefix_kind(p: Seq<char>, windows: bool) -> PrefixKind {
    if !windows || p.len() < 2 {
        PrefixKind::Nothing
    } else if is_separator(p[0], true) && is_separator(p[1], true) {
        if p.len() >= 4 && p[0] == '\\' && p[1] == '\\' && p[2] == '?' && p[3] == '\\' {
            PrefixKind::Verbatim
        } else if p.len() >= 4 && p[2] == '.' && is_separator(p[3], true) {
            PrefixKind::Device
        } else {
            let server = component_end(p, 2, PrefixKind::Share);
            if server > 2 && pair_end(p, 2, PrefixKind::Share) > server {
                PrefixKind::Share
            } else {
                PrefixKind::Nothing
            }
        }
    } else if drive_at(p, 0) {
        PrefixKind::Drive
    } else {
        PrefixKind::Nothing
    }
}

/// Whether a verbatim path names a share of a server.
pub open spec fn names_share(p: Seq<char>) -> bool {
    p.len() >= 8 && p[4] == 'U' && p[5] == 'N' && p[6] == 'C' && is_separator(p[7], true)
}

/// How long the prefix of a path is.
pub open spec fn prefix_len(p: Seq<char>, windows: bool) -> int {
    match prefix_kind(p, windows) {
        PrefixKind::Nothing => 0,
        PrefixKind::Drive => 2,
        PrefixKind::Share => pair_end(p, 2, PrefixKind::Share),
        PrefixKind::Device => component_end(p, 4, PrefixKind::Device),
        PrefixKind::Verbatim => if names_share(p) {
            pair_end(p, 8, PrefixKind::Verbatim)
        } else if drive_at(p, 4) && (p.len() == 6 || is_separator(p[6], true)) {
            6
        } else {
            component_end(p, 4, PrefixKind::Verbatim)
        },
    }
}

/// How long the prefix of a path and its root are.
pub open spec fn root_len(p: Seq<char>, windows: bool) -> int {
    let n = prefix_len(p, windows);
    if n < p.len() && is_separator(p[n], windows) {
        n + 1
    } else {
        n
    }
}

fn separator(c: char, windows: bool) -> (r: bool)
    ensures
        r == is_separator(c, windows),
{
    c == '/' || (windows && c == '\\')
}

fn part(c: char, kind: PrefixKind, windows: bool) -> (r: bool)
    ensures
        r == parts(c, kind, windows),
{
    if kind == PrefixKind::Verbatim {
        c == '\\'
    } else {
        separator(c, windows)
    }
}

fn drive(p: &Vec<char>, i: usize) -> (r: bool)
    requires
        i < 8,
    ensures
        r == drive_at(p@, i as int),
{
    if p.len() < i + 2 {
        return false;
    }
    let c = p[i];
    (('a' <= c && c <= 'z') || ('A' <= c && c <= 'Z')) && p[i + 1] == ':'
}

fn end_of_component(p: &Vec<char>, from: usize, kind: PrefixKind) -> (r: usize)
    requires
        from <= p@.len(),
    ensures
        r == component_end(p@, from as int, kind),
        from <= r <= p@.len(),
{
    let mut i: usize = from;
    while i < p.len() && !part(p[i], kind, true)
        invariant
            from <= i <= p@.len(),
            component_end(p@, from as int, kind) == component_end(p@, i as int, kind),
        decreases p@.len() - i,
    {
        i = i + 1;
    }
    i
}

fn end_of_pair(p: &Vec<char>, from: usize, kind: PrefixKind) -> (r: usize)
    requires
        from <= p@.len(),
    ensures
        r == pair_end(p@, from as int, kind),
        from <= r <= p@.len(),
{
    let first = end_of_component(p, from, kind);
    if first >= p.len() {
        return first;
    }
    let second = end_of_component(p, first + 1, kind);
    if second == first + 1 {
        first
    } else {
        second
    }
}

fn kind_of_prefix(p: &Vec<char>, windows: bool) -> (r: PrefixKind)
    ensures
        r == prefix_kind(p@, windows),
{
    if !windows || p.len() < 2 {
        return PrefixKind::Nothing;
    }
    if separator(p[0], true) && separator(p[1], true) {
        if p.len() >= 4 && p[0] == '\\' && p[1] == '\\' && p[2] == '?' && p[3] == '\\' {
            return PrefixKind::Verbatim;
        }
        if p.len() >= 4 && p[2] == '.' && separator(p[3], true) {
            return PrefixKind::Device;
        }
        let server = end_of_component(p, 2, PrefixKind::Share);
        if server > 2 && end_of_pair(p, 2, PrefixKind::Share) > server {
            return PrefixKind::Share;
        }
        return PrefixKind::Nothing;
    }
    if drive(p, 0) {
        PrefixKind::Drive
    } else {
        PrefixKind::Nothing
    }
}

fn len_of_prefix(p: &Vec<char>, windows: bool) -> (r: usize)
    ensures
        r == prefix_len(p@, windows),
        r <= p@.len(),
{
    match kind_of_prefix(p, windows) {
        PrefixKind::Nothing => 0,
        PrefixKind::Drive => 2,
        PrefixKind::Share => end_of_pair(p, 2, PrefixKind::Share),
        PrefixKind::Device => end_of_component(p, 4, PrefixKind::Device),
        PrefixKind::Verbatim => {
            if p.len() >= 8 && p[4] == 'U' && p[5] == 'N' && p[6] == 'C' && separator(p[7], true) {
                end_of_pair(p, 8, PrefixKind::Verbatim)
            } else if drive(p, 4) && (p.len() == 6 || separator(p[6], true)) {
                6
            } else {
                end_of_component(p, 4, PrefixKind::Verbatim)
            }
        },
    }
}

fn len_of_root(p: &Vec<char>, windows: bool) -> (r: usize)
    ensures
        r == root_len(p@, windows),
        r <= p@.len(),
{
    let n = len_of_prefix(p, windows);
    if n < p.len() && separator(p[n], windows) {
        n + 1
    } else {
        n
    }
}

// ---------------------------------------------------------------------------
// Components
// ---------------------------------------------------------------------------

/// Where the last component before `n` ends: without the separators and, but in a verbatim
/// path, the `.` components that follow it. Nothing before `start` is looked at.
pub open spec fn trimmed_to(
    p: Seq<char>,
    start: int,
    n: int,
    kind: PrefixKind,
    windows: bool,
) -> int
    decreases n,
{
    if 0 <= start < n && (parts(p[n - 1], kind, windows) || (kind != PrefixKind::Verbatim && p[n - 1]
        == '.' && (n - 1 == start || parts(p[n - 2], kind, windows)))) {
        trimmed_to(p, start, n - 1, kind, windows)
    } else {
        n
    }
}

/// Where the component that ends at `n` begins.
pub open spec fn component_start(
    p: Seq<char>,
    start: int,
    n: int,
    kind: PrefixKind,
    windows: bool,
) -> int
    decreases n,
{
    if 0 <= start < n && !parts(p[n - 1], kind, windows) {
        component_start(p, start, n - 1, kind, windows)
    } else {
        n
    }
}

/// Where the last component of a path ends.
pub open spec fn name_end(p: Seq<char>, windows: bool) -> int {
    trimmed_to(p, root_len(p, windows), p.len() as int, prefix_kind(p, windows), windows)
}

/// Where the last component of a path begins.
pub open spec fn name_start(p: Seq<char>, windows: bool) -> int {
    component_start(
        p,
        root_len(p, windows),
        name_end(p, windows),
        prefix_kind(p, windows),
        windows,
    )
}

/// The last component of a path; nothing where it has none.
pub open spec fn file_name(path: Seq<char>, windows: bool) -> Seq<char> {
    path.subrange(name_start(path, windows), name_end(path, windows))
}

/// Whether the last component of a path names a file.
pub open spec fn has_name(path: Seq<char>, windows: bool) -> bool {
    let name = file_name(path, windows);
    name.len() > 0 && name != seq!['.'] && name != seq!['.', '.']
}

/// What follows the last `c` of `s`; all of it where there is none.
pub open spec fn after_last(s: Seq<char>, c: char) -> Seq<char>
    decreases s.len(),
{
    if s.len() == 0 || s.last() == c {
        Seq::empty()
    } else {
        after_last(s.drop_last(), c).push(s.last())
    }
}

/// The extension of a path's file name: what follows its last dot, unless the only
/// dot is its first character. `..` has none.
pub open spec fn extension(path: Seq<char>, windows: bool) -> Option<Seq<char>> {
    let name = file_name(path, windows);
    let ext = after_last(name, '.');
    if name == seq!['.', '.'] || ext.len() + 1 >= name.len() {
        None
    } else {
        Some(ext)
    }
}

proof fn lemma_prefix_fits(p: Seq<char>, windows: bool)
    ensures
        0 <= prefix_len(p, windows) <= root_len(p, windows) <= p.len(),
{
    lemma_component_fits(p, 2, PrefixKind::Share);
    lemma_component_fits(p, 4, PrefixKind::Device);
    lemma_component_fits(p, 4, PrefixKind::Verbatim);
    lemma_pair_fits(p, 2, PrefixKind::Share);
    lemma_pair_fits(p, 8, PrefixKind::Verbatim);
}

proof fn lemma_component_fits(p: Seq<char>, from: int, kind: PrefixKind)
    ensures
        from <= component_end(p, from, kind),
        from <= p.len() ==> component_end(p, from, kind) <= p.len(),
    decreases p.len() - from,
{
    if from < p.len() && !parts(p[from], kind, true) {
        lemma_component_fits(p, from + 1, kind);
    }
}

proof fn lemma_pair_fits(p: Seq<char>, from: int, kind: PrefixKind)
    ensures
        from <= component_end(p, from, kind) <= pair_end(p, from, kind),
        from <= p.len() ==> pair_end(p, from, kind) <= p.len(),
{
    lemma_component_fits(p, from, kind);
    lemma_component_fits(p, component_end(p, from, kind) + 1, kind);
}

proof fn lemma_trimmed(p: Seq<char>, start: int, n: int, kind: PrefixKind, windows: bool)
    requires
        0 <= start <= n <= p.len(),
    ensures
        start <= trimmed_to(p, start, n, kind, windows) <= n,
    decreases n,
{
    if trimmed_to(p, start, n, kind, windows) != n {
        lemma_trimmed(p, start, n - 1, kind, windows);
    }
}

proof fn lemma_component_start(p: Seq<char>, start: int, n: int, kind: PrefixKind, windows: bool)
    requires
        0 <= start <= n <= p.len(),
    ensures
        ({
            let i = component_start(p, start, n, kind, windows);
            &&& start <= i <= n
            &&& i == start || parts(p[i - 1], kind, windows)
            &&& forall|k: int| i <= k < n ==> !parts(#[trigger] p[k], kind, windows)
        }),
    decreases n,
{
    if start < n && !parts(p[n - 1], kind, windows) {
        lemma_component_start(p, start, n - 1, kind, windows);
    }
}

fn trim_to(p: &Vec<char>, start: usize, n: usize, kind: PrefixKind, windows: bool) -> (r: usize)
    requires
        start <= n <= p@.len(),
    ensures
        r == trimmed_to(p@, start as int, n as int, kind, windows),
        start <= r <= n,
{
    let mut i: usize = n;
    while i > start && (part(p[i - 1], kind, windows) || (kind != PrefixKind::Verbatim && p[i - 1]
        == '.' && (i - 1 == start || part(p[i - 2], kind, windows))))
        invariant
            start <= i <= n <= p@.len(),
            trimmed_to(p@, start as int, n as int, kind, windows) == trimmed_to(
                p@,
                start as int,
                i as int,
                kind,
                windows,
            ),
        decreases i,
    {
        i = i - 1;
    }
    i
}

fn start_of_component(
    p: &Vec<char>,
    start: usize,
    n: usize,
    kind: PrefixKind,
    windows: bool,
) -> (r: usize)
    requires
        start <= n <= p@.len(),
    ensures
        r == component_start(p@, start as int, n as int, kind, windows),
        start <= r <= n,
{
    let mut i: usize = n;
    while i > start && !part(p[i - 1], kind, windows)
        invariant
            start <= i <= n <= p@.len(),
            component_start(p@, start as int, n as int, kind, windows) == component_start(
                p@,
                start as int,
                i as int,
                kind,
                windows,
            ),
        decreases i,
    {
        i = i - 1;
    }
    i
}

/// Where the last component of a path begins and ends.
fn name_bounds(p: &Vec<char>, windows: bool) -> (r: (usize, usize))
    ensures
        r.0 == name_start(p@, windows),
        r.1 == name_end(p@, windows),
        root_len(p@, windows) <= r.0 <= r.1 <= p@.len(),
{
    let kind = kind_of_prefix(p, windows);
    let start = len_of_root(p, windows);
    let to = trim_to(p, start, p.len(), kind, windows);
    (start_of_component(p, start, to, kind, windows), to)
}

/// The last component of a path.
pub fn path_file_name(path: &str, windows: bool) -> (r: String)
    ensures
        r@ == file_name(path@, windows),
{
    let chars = chars_of(path);
    let (from, to) = name_bounds(&chars, windows);
    string_of(&chars, from, to)
}

fn text_after_last(s: &str, c: char) -> (r: String)
    ensures
        r@ == after_last(s@, c),
{
    let chars = chars_of(s);
    let mut i: usize = chars.len();
    assert(s@.subrange(i as int, s@.len() as int) =~= Seq::<char>::empty());
    assert(s@.take(i as int) =~= s@);
    assert(after_last(s@, c) =~= after_last(s@.take(i as int), c) + s@.subrange(
        i as int,
        s@.len() as int,
    ));
    while i > 0 && chars[i - 1] != c
        invariant
            i <= chars@.len(),
            chars@ == s@,
            after_last(s@, c) == after_last(s@.take(i as int), c) + s@.subrange(
                i as int,
                s@.len() as int,
            ),
        decreases i,
    {
        proof {
            let head = s@.take(i as int);
            assert(head.last() == s@[i - 1]);
            assert(head.drop_last() =~= s@.take(i - 1));
            assert(after_last(s@.take(i - 1), c).push(s@[i - 1]) + s@.subrange(
                i as int,
                s@.len() as int,
            ) =~= after_last(s@.take(i - 1), c) + s@.subrange(i - 1, s@.len() as int));
        }
        i = i - 1;
    }
    proof {
        assert(after_last(s@.take(i as int), c) =~= Seq::<char>::empty());
        assert(after_last(s@, c) =~= s@.subrange(i as int, s@.len() as int));
    }
    string_of(&chars, i, chars.len())
}

/// The extension of a path.
pub fn path_extension(path: &str, windows: bool) -> (r: Option<String>)
    ensures
        crate::text::opt_text(r) == extension(path@, windows),
{
    let name = path_file_name(path, windows);
    proof {
        reveal_strlit("..");
        assert(".."@ =~= seq!['.', '.']);
        lemma_after_last_len(name@, '.');
    }
    if str_eq(name.as_str(), "..") {
        return None;
    }
    let ext = text_after_last(name.as_str(), '.');
    let whole: usize = name.as_str().unicode_len();
    let part: usize = ext.as_str().unicode_len();
    if part >= whole || part + 1 >= whole {
        None
    } else {
        Some(ext)
    }
}

proof fn lemma_after_last_len(s: Seq<char>, c: char)
    ensures
        after_last(s, c).len() <= s.len(),
    decreases s.len(),
{
    if s.len() > 0 && s.last() != c {
        lemma_after_last_len(s.drop_last(), c);
    }
}

// ---------------------------------------------------------------------------
// Joining
// ---------------------------------------------------------------------------

/// The components of what follows the root of a verbatim path, each behind one `\`.
pub open spec fn respelled(s: Seq<char>) -> Seq<char>
    decreases s.len(),
{
    if s.len() == 0 {
        Seq::empty()
    } else if s.last() == '\\' {
        respelled(s.drop_last())
    } else if s.len() == 1 || s[s.len() - 2] == '\\' {
        respelled(s.drop_last()).push('\\').push(s.last())
    } else {
        respelled(s.drop_last()).push(s.last())
    }
}

/// The file `name` in the directory `dir`; `name` is one component. A name that begins with
/// a drive is a path of its own, and behind the bare drive of a directory nothing separates
/// it.
pub open spec fn joined(dir: Seq<char>, name: Seq<char>, windows: bool) -> Seq<char> {
    let kind = prefix_kind(dir, windows);
    if prefix_kind(name, windows) != PrefixKind::Nothing {
        name
    } else if kind == PrefixKind::Verbatim {
        dir.take(prefix_len(dir, windows)) + respelled(dir.skip(root_len(dir, windows)))
            + seq!['\\'] + name
    } else if dir.len() == 0 || is_separator(dir.last(), windows) || (kind == PrefixKind::Drive
        && dir.len() == 2) {
        dir + name
    } else if windows {
        dir + seq!['\\'] + name
    } else {
        dir + seq!['/'] + name
    }
}

fn respell(p: &Vec<char>, from: usize) -> (r: String)
    requires
        from <= p@.len(),
    ensures
        r@ == respelled(p@.skip(from as int)),
{
    let ghost s = p@.skip(from as int);
    let mut out = String::new();
    let mut i: usize = from;
    assert(s.take(0) =~= Seq::<char>::empty());
    while i < p.len()
        invariant
            from <= i <= p@.len(),
            s == p@.skip(from as int),
            out@ == respelled(s.take(i - from)),
        decreases p@.len() - i,
    {
        proof {
            assert(s.take(i - from + 1).drop_last() =~= s.take(i - from));
            assert(s.take(i - from + 1).last() == p@[i as int]);
            assert(i > from ==> s.take(i - from + 1)[i - from - 1] == p@[i - 1]);
        }
        if p[i] != '\\' {
            if i == from || p[i - 1] == '\\' {
                out.push('\\');
            }
            out.push(p[i]);
        }
        i = i + 1;
    }
    assert(s.take(i - from) =~= s);
    out
}

/// The file `name` in the directory `dir`.
pub fn join_path(dir: &str, name: &str, windows: bool) -> (r: String)
    ensures
        r@ == joined(dir@, name@, windows),
{
    proof {
        reveal_strlit("/");
        reveal_strlit("\\");
        assert("/"@ =~= seq!['/']);
        assert("\\"@ =~= seq!['\\']);
    }
    let p = chars_of(dir);
    let n: usize = p.len();
    let own = chars_of(name);
    if kind_of_prefix(&own, windows) != PrefixKind::Nothing {
        return name.to_owned();
    }
    let kind = kind_of_prefix(&p, windows);
    if kind == PrefixKind::Verbatim {
        let head = string_of(&p, 0, len_of_prefix(&p, windows));
        assert(head@ =~= dir@.take(prefix_len(dir@, windows)));
        let body = respell(&p, len_of_root(&p, windows));
        return crate::text::cat4(head.as_str(), body.as_str(), "\\", name);
    }
    if n == 0 || separator(p[n - 1], windows) || (kind == PrefixKind::Drive && n == 2) {
        cat2(dir, name)
    } else if windows {
        cat3(dir, "\\", name)
    } else {
        cat3(dir, "/", name)
    }
}

// ---------------------------------------------------------------------------
// Files beside another one
// ---------------------------------------------------------------------------

/// How long what a path begins with is and its parent always keeps: its prefix, its root,
/// and without a root a leading `.` component.
pub open spec fn kept_len(p: Seq<char>, windows: bool) -> int {
    let n = root_len(p, windows);
    let kind = prefix_kind(p, windows);
    let rooted = n > prefix_len(p, windows) || !(kind == PrefixKind::Nothing || kind
        == PrefixKind::Drive);
    if !rooted && n < p.len() && p[n] == '.' && (n + 1 == p.len() || is_separator(
        p[n + 1],
        windows,
    )) {
        n + 1
    } else {
        n
    }
}

/// How much of a path is the directory of the file it names: what comes before the name,
/// without the separators and `.` components in between.
pub open spec fn parent_len(p: Seq<char>, windows: bool) -> int {
    trimmed_to(
        p,
        kept_len(p, windows),
        name_start(p, windows),
        prefix_kind(p, windows),
        windows,
    )
}

/// The file `name` beside the one that a path names, or in the directory that it is where
/// it names none.
pub open spec fn beside(path: Seq<char>, name: Seq<char>, windows: bool) -> Seq<char> {
    if has_name(path, windows) {
        joined(path.take(parent_len(path, windows)), name, windows)
    } else {
        joined(path, name, windows)
    }
}

/// The file `name` beside the one that a path names.
pub fn path_beside(path: &str, name: &str, windows: bool) -> (r: String)
    ensures
        r@ == beside(path@, name@, windows),
{
    proof {
        reveal_strlit("..");
        reveal_strlit(".");
        assert(".."@ =~= seq!['.', '.']);
        assert("."@ =~= seq!['.']);
    }
    let p = chars_of(path);
    let (from, to) = name_bounds(&p, windows);
    let own = string_of(&p, from, to);
    if own.as_str().is_empty() || str_eq(own.as_str(), ".") || str_eq(own.as_str(), "..") {
        return join_path(path, name, windows);
    }
    let kind = kind_of_prefix(&p, windows);
    let n = len_of_root(&p, windows);
    let rooted = n > len_of_prefix(&p, windows) || !(kind == PrefixKind::Nothing || kind
        == PrefixKind::Drive);
    let kept = if !rooted && n < p.len() && p[n] == '.' && (n + 1 == p.len() || separator(
        p[n + 1],
        windows,
    )) {
        n + 1
    } else {
        n
    };
    let end = if kept <= from {
        trim_to(&p, kept, from, kind, windows)
    } else {
        from
    };
    let dir = string_of(&p, 0, end);
    assert(dir@ =~= path@.take(parent_len(path@, windows)));
    join_path(dir.as_str(), name, windows)
}

proof fn lemma_component_end_before(p: Seq<char>, n: int, from: int, kind: PrefixKind)
    requires
        0 <= from <= component_end(p, from, kind) <= n <= p.len(),
    ensures
        component_end(p.take(n), from, kind) == component_end(p, from, kind),
    decreases p.len() - from,
{
    if from < p.len() && !parts(p[from], kind, true) {
        lemma_component_fits(p, from + 1, kind);
        lemma_component_end_before(p, n, from + 1, kind);
    }
}

/// What follows the prefix of a verbatim path does not change it.
proof fn lemma_verbatim_prefix_before(p: Seq<char>, n: int)
    requires
        prefix_kind(p.take(n), true) == PrefixKind::Verbatim,
        prefix_len(p, true) <= n <= p.len(),
    ensures
        prefix_kind(p, true) == PrefixKind::Verbatim,
        prefix_len(p.take(n), true) == prefix_len(p, true),
{
    let kind = PrefixKind::Verbatim;
    lemma_prefix_fits(p, true);
    let q = p.take(n);
    assert(q.len() >= 4 && q[0] == p[0] && q[1] == p[1] && q[2] == p[2] && q[3] == p[3]);
    assert forall|k: int| 0 <= k < n implies q[k] == p[k] by {}
    if names_share(p) {
        lemma_pair_fits(p, 8, kind);
        let first = component_end(p, 8, kind);
        assert(names_share(q));
        lemma_component_end_before(p, n, 8, kind);
        let second = component_end(p, first + 1, kind);
        lemma_component_fits(p, first + 1, kind);
        lemma_component_fits(p, first + 2, kind);
        if first < p.len() {
            if second > first + 1 {
                lemma_component_end_before(p, n, first + 1, kind);
            } else {
                assert(component_end(q, first + 1, kind) == first + 1);
            }
        }
        assert(pair_end(q, 8, kind) == pair_end(p, 8, kind));
    } else {
        assert(!names_share(q));
        lemma_component_fits(p, 4, kind);
        if drive_at(p, 4) {
            assert(component_end(p, 5, kind) == component_end(p, 4, kind));
            assert(component_end(p, 6, kind) == component_end(p, 5, kind));
            lemma_component_fits(p, 6, kind);
            if p.len() > 6 {
                lemma_component_fits(p, 7, kind);
            }
            assert(n >= 6 && drive_at(q, 4));
        }
        if !(drive_at(p, 4) && (p.len() == 6 || is_separator(p[6], true))) {
            lemma_component_end_before(p, n, 4, kind);
            assert(!(drive_at(q, 4) && (q.len() == 6 || is_separator(q[6], true))));
        }
    }
}

/// What is joined ends with the name, and is longer than both.
proof fn lemma_joined(dir: Seq<char>, name: Seq<char>, windows: bool)
    ensures
        joined(dir, name, windows).len() >= name.len(),
        joined(dir, name, windows).skip(joined(dir, name, windows).len() - name.len()) == name,
        prefix_kind(name, windows) != PrefixKind::Nothing ==> joined(dir, name, windows) == name,
        prefix_kind(name, windows) == PrefixKind::Nothing ==> joined(dir, name, windows).len()
            >= name.len() + (if prefix_kind(dir, windows) == PrefixKind::Verbatim {
            prefix_len(dir, windows) + 1
        } else {
            dir.len() as int
        }),
{
    lemma_prefix_fits(dir, windows);
    let all = joined(dir, name, windows);
    assert(all.skip(all.len() - name.len()) =~= name);
}

/// A path that ends with a character of a name is its own last component from there on.
proof fn lemma_name_at_the_end(path: Seq<char>, windows: bool)
    requires
        path.len() > 0,
        path.last() != '.',
        path.last() != '/',
        path.last() != '\\',
    ensures
        name_end(path, windows) == path.len(),
        ({
            let from = name_start(path, windows);
            let kind = prefix_kind(path, windows);
            &&& root_len(path, windows) <= from <= path.len()
            &&& file_name(path, windows) == path.skip(from)
            &&& from == root_len(path, windows) || parts(path[from - 1], kind, windows)
            &&& forall|k: int|
                from <= k < path.len() ==> !parts(#[trigger] path[k], kind, windows)
        }),
{
    lemma_prefix_fits(path, windows);
    lemma_component_start(
        path,
        root_len(path, windows),
        path.len() as int,
        prefix_kind(path, windows),
        windows,
    );
    assert(file_name(path, windows) =~= path.skip(name_start(path, windows)));
}

proof fn lemma_longer_name_beside(path: Seq<char>, tail: Seq<char>, windows: bool)
    requires
        has_name(path, windows),
        tail.len() > 3,
        tail.last() != '.',
        forall|k: int|
            0 <= k < tail.len() ==> #[trigger] tail[k] != '/' && tail[k] != '\\',
    ensures
        beside(path, file_name(path, windows) + tail, windows) != path,
{
    let name = file_name(path, windows);
    let w = name + tail;
    let dir = path.take(parent_len(path, windows));
    lemma_joined(dir, w, windows);
    if joined(dir, w, windows) == path {
        let kind = prefix_kind(path, windows);
        let root = root_len(path, windows);
        let at = path.len() - w.len();
        assert(w.last() == tail.last());
        assert(path.skip(at).last() == path.last());
        lemma_name_at_the_end(path, windows);
        lemma_prefix_fits(path, windows);
        let from = name_start(path, windows);
        assert(from == at + tail.len());
        if from > root {
            let k = from - 1 - at;
            assert(w[k] == path.skip(at)[k]);
            assert(path[from - 1] == w[k]);
            if k < name.len() {
                assert(w[k] == name[k]);
                assert(name[k] == path.skip(from)[k]);
                assert(name[k] == path[from + k]);
            } else {
                assert(w[k] == tail[k - name.len()]);
            }
            assert(false);
        }
        assert(parent_len(path, windows) == from);
        assert(dir.len() == from);
        if prefix_kind(w, windows) != PrefixKind::Nothing {
            assert(w == path);
            assert(path[0] == name[0]);
            assert(name[0] == path.skip(from)[0]);
            assert(!parts(path[from], kind, windows));
            assert(!parts(path[0], kind, windows));
            assert(root <= 3);
            assert(false);
        } else if prefix_kind(dir, windows) == PrefixKind::Verbatim {
            assert(windows);
            lemma_verbatim_prefix_before(path, from);
        }
    }
}

proof fn lemma_name_inside(path: Seq<char>, name: Seq<char>, windows: bool)
    requires
        !has_name(path, windows),
        name.len() > 0,
        name.last() != '.',
        name.last() != '/',
        name.last() != '\\',
        prefix_kind(name, windows) == PrefixKind::Nothing,
    ensures
        joined(path, name, windows) != path,
{
    lemma_joined(path, name, windows);
    if joined(path, name, windows) == path {
        assert(path.skip(path.len() - name.len()).last() == path.last());
        lemma_name_at_the_end(path, windows);
        lemma_prefix_fits(path, windows);
        let own = file_name(path, windows);
        if own.len() > 0 {
            assert(own.last() == path.last());
            assert(seq!['.'].last() == '.');
            assert(seq!['.', '.'].last() == '.');
            assert(false);
        }
        assert(path.len() == root_len(path, windows));
    }
}

/// A file beside another one, under its name with more than three characters of a name
/// behind it, is never that file; nor is a file in a directory ever the directory.
pub proof fn law_a_file_beside_is_another_one(
    path: Seq<char>,
    other: Seq<char>,
    tail: Seq<char>,
    windows: bool,
)
    requires
        tail.len() > 3,
        tail.last() != '.',
        forall|k: int|
            0 <= k < tail.len() ==> #[trigger] tail[k] != '/' && tail[k] != '\\',
        prefix_kind(other + tail, windows) == PrefixKind::Nothing,
    ensures
        has_name(path, windows) ==> beside(path, file_name(path, windows) + tail, windows) != path,
        !has_name(path, windows) ==> beside(path, other + tail, windows) != path,
{
    if has_name(path, windows) {
        lemma_longer_name_beside(path, tail, windows);
    } else {
        assert((other + tail).last() == tail.last());
        lemma_name_inside(path, other + tail, windows);
    }
}

} // verus!
