//! What the names of files promise.

use crate::cli::definition::result_path;
use crate::cli::settings::backup_path;
use crate::path::{
    after_last, beside, component_start, extension, file_name, has_name, is_separator, joined,
    kept_len, name_end, name_start, parent_len, prefix_kind, root_len, trimmed_to, PrefixKind,
};
use crate::text::decimal;
use vstd::prelude::*;

verus! {

/// Whether a text can be the name of a file: it is not empty, not a dot or two, and nothing
/// in it separates.
pub open spec fn is_name(name: Seq<char>, windows: bool) -> bool {
    &&& name.len() > 0
    &&& name != seq!['.']
    &&& name != seq!['.', '.']
    &&& forall|k: int| 0 <= k < name.len() ==> !is_separator(#[trigger] name[k], windows)
}

proof fn lemma_component(p: Seq<char>, start: int, from: int, n: int, windows: bool)
    requires
        0 <= start <= from <= n <= p.len(),
        forall|k: int| from <= k < n ==> !is_separator(#[trigger] p[k], windows),
        from == start || is_separator(p[from - 1], windows),
    ensures
        component_start(p, start, n, PrefixKind::Nothing, windows) == from,
    decreases n,
{
    if from < n {
        lemma_component(p, start, from, n - 1, windows);
    }
}

/// Where the name of a file begins, and where it ends: it follows the last separator.
proof fn lemma_name(dir: Seq<char>, c: char, name: Seq<char>, windows: bool)
    requires
        is_name(name, windows),
        is_separator(c, windows),
        prefix_kind(dir + seq![c] + name, windows) == PrefixKind::Nothing,
    ensures
        ({
            let p = dir + seq![c] + name;
            &&& root_len(p, windows) <= dir.len() + 1
            &&& name_end(p, windows) == p.len()
            &&& name_start(p, windows) == dir.len() + 1
            &&& file_name(p, windows) == name
        }),
{
    let p = dir + seq![c] + name;
    let n = p.len() as int;
    let from = dir.len() as int + 1;
    assert(p[from - 1] == c);
    assert(forall|k: int| from <= k < n ==> #[trigger] p[k] == name[k - from]);
    assert(p[n - 1] == name.last());
    assert(!is_separator(p[n - 1], windows));
    if p[n - 1] == '.' {
        if name.len() == 1 {
            assert(name =~= seq!['.']);
        }
        assert(p[n - 2] == name[name.len() - 2]);
        assert(!is_separator(p[n - 2], windows));
    }
    assert(trimmed_to(p, root_len(p, windows), n, PrefixKind::Nothing, windows) == n);
    lemma_component(p, root_len(p, windows), from, n, windows);
    assert(p.subrange(from, n) =~= name);
}

/// A file goes by what follows the last separator of its path.
pub proof fn law_a_file_goes_by_what_follows_the_last_separator(
    dir: Seq<char>,
    c: char,
    name: Seq<char>,
    windows: bool,
)
    requires
        is_name(name, windows),
        c == '/' || (windows && c == '\\'),
        prefix_kind(dir + seq![c] + name, windows) == PrefixKind::Nothing,
    ensures
        file_name(dir + seq![c] + name, windows) == name,
        has_name(dir + seq![c] + name, windows),
{
    lemma_name(dir, c, name, windows);
}

/// A name without a separator is its own file.
pub proof fn law_a_bare_name_is_its_own_file(name: Seq<char>, windows: bool)
    requires
        is_name(name, windows),
        prefix_kind(name, windows) == PrefixKind::Nothing,
    ensures
        file_name(name, windows) == name,
        has_name(name, windows),
{
    let n = name.len() as int;
    assert(!is_separator(name[0], windows));
    assert(root_len(name, windows) == 0);
    assert(!is_separator(name[n - 1], windows));
    if name[n - 1] == '.' {
        if n == 1 {
            assert(name =~= seq!['.']);
        }
        assert(!is_separator(name[n - 2], windows));
    }
    lemma_component(name, 0, 0, n, windows);
    assert(name.subrange(0, n) =~= name);
}

proof fn lemma_after_last(stem: Seq<char>, ext: Seq<char>, c: char)
    requires
        !ext.contains(c),
    ensures
        after_last(stem.push(c) + ext, c) == ext,
        after_last(ext, c) == ext,
    decreases ext.len(),
{
    let s = stem.push(c) + ext;
    if ext.len() == 0 {
        assert(s.last() == c);
    } else {
        assert(s.last() == ext.last());
        assert(ext.contains(ext.last()));
        let less = ext.drop_last();
        assert(!less.contains(c)) by {
            if less.contains(c) {
                let i = choose|i: int| 0 <= i < less.len() && less[i] == c;
                assert(ext[i] == c);
            }
        }
        lemma_after_last(stem, less, c);
        assert(s.drop_last() =~= stem.push(c) + less);
        assert(less.push(ext.last()) =~= ext);
    }
}

/// The extension of a file is what follows the last dot of its name, unless that dot is the
/// first character; a name without a dot has none.
pub proof fn law_an_extension_follows_the_last_dot(
    dir: Seq<char>,
    stem: Seq<char>,
    ext: Seq<char>,
    windows: bool,
)
    requires
        !ext.contains('.'),
    ensures
        is_name(stem.push('.') + ext, windows) && prefix_kind(
            dir + seq!['/'] + (stem.push('.') + ext),
            windows,
        ) == PrefixKind::Nothing ==> extension(dir + seq!['/'] + (stem.push('.') + ext), windows)
            == (if stem.len() > 0 {
            Some(ext)
        } else {
            None
        }),
        is_name(ext, windows) && prefix_kind(dir + seq!['/'] + ext, windows) == PrefixKind::Nothing
            ==> extension(dir + seq!['/'] + ext, windows) is None,
{
    let name = stem.push('.') + ext;
    lemma_after_last(stem, ext, '.');
    if is_name(name, windows) && prefix_kind(dir + seq!['/'] + name, windows)
        == PrefixKind::Nothing {
        lemma_name(dir, '/', name, windows);
    }
    if is_name(ext, windows) && prefix_kind(dir + seq!['/'] + ext, windows)
        == PrefixKind::Nothing {
        lemma_name(dir, '/', ext, windows);
    }
}

/// A file in a directory is the directory, one separator and the name; where the directory
/// ends with a separator, or is empty, none is put in between.
pub proof fn law_a_file_in_a_directory_follows_one_separator(dir: Seq<char>, name: Seq<char>)
    ensures
        dir.len() > 0 && dir.last() != '/' ==> joined(dir, name, false) == dir + seq!['/'] + name,
        dir.len() > 0 && dir.last() == '/' ==> joined(dir, name, false) == dir + name,
        dir.len() == 0 ==> joined(dir, name, false) == name,
        prefix_kind(name, true) == PrefixKind::Nothing && prefix_kind(dir, true)
            == PrefixKind::Nothing && dir.len() > 0 && dir.last() != '/' && dir.last() != '\\'
            ==> joined(dir, name, true) == dir + seq!['\\'] + name,
{
    if dir.len() == 0 {
        assert(dir + name =~= name);
    }
}

/// The result of a node is the file of that name in its directory.
pub proof fn law_a_result_is_a_file_of_its_directory(dir: Seq<char>)
    ensures
        dir.len() > 0 && dir.last() != '/' ==> result_path(dir, false) == dir + seq!['/']
            + "result.json"@,
        dir.len() > 0 && dir.last() == '/' ==> result_path(dir, false) == dir + "result.json"@,
{
}

/// A file beside another one is in the same directory; the copy of a configuration is
/// beside it, under its own name with the time behind it.
pub proof fn law_a_copy_lies_beside_its_file(
    dir: Seq<char>,
    name: Seq<char>,
    other: Seq<char>,
    timestamp: nat,
)
    requires
        dir.len() > 0,
        dir.last() != '/',
        dir.last() != '.',
        is_name(name, false),
    ensures
        beside(dir + seq!['/'] + name, other, false) == dir + seq!['/'] + other,
        backup_path(dir + seq!['/'] + name, timestamp, false) == dir + seq!['/'] + name
            + ".bak-keybind-v2-"@ + decimal(timestamp),
{
    let p = dir + seq!['/'] + name;
    let n = dir.len() as int;
    lemma_name(dir, '/', name, false);
    assert(p[n] == '/');
    assert(p[n - 1] == dir.last());
    assert(p[0] == dir[0]);
    let kept = kept_len(p, false);
    assert(kept <= n);
    assert(trimmed_to(p, kept, n, PrefixKind::Nothing, false) == n);
    assert(trimmed_to(p, kept, n + 1, PrefixKind::Nothing, false) == trimmed_to(
        p,
        kept,
        n,
        PrefixKind::Nothing,
        false,
    ));
    assert(parent_len(p, false) == n);
    assert(p.take(n) =~= dir);
    let copy = name + (".bak-keybind-v2-"@ + decimal(timestamp));
    assert(dir + seq!['/'] + copy =~= dir + seq!['/'] + name + ".bak-keybind-v2-"@ + decimal(
        timestamp,
    ));
}

} // verus!
