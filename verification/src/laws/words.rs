//! What reading and writing words promises.

use crate::json::{at, flag_at, member, text_at, text_or, unsigned_at, unsigned_or_0, Json};
use crate::ordered::text_lt;
use crate::text::{
    after_part, all_digits, byte_len, char_pos, decimal, digits_value, eq_ascii_case, is_space,
    join, lemma_char_pos, lines, pad_right, part_pos, read_unsigned, replaced, split_once,
    strip_prefix, trim, trim_end, trim_start, zero_padded,
};
use vstd::prelude::*;

verus! {

/// Whether two characters are the same letter, whatever their case, or the same character.
pub open spec fn same_letter(a: char, b: char) -> bool {
    ||| a == b
    ||| 'A' <= a && a <= 'Z' && b as int == a as int + 32
    ||| 'A' <= b && b <= 'Z' && a as int == b as int + 32
}

/// Two names are the same up to case exactly where they are as long and have the same
/// letters in the same places.
pub proof fn law_case_does_not_matter(a: Seq<char>, b: Seq<char>)
    ensures
        eq_ascii_case(a, b) <==> a.len() == b.len() && forall|i: int|
            0 <= i < a.len() ==> same_letter(#[trigger] a[i], b[i]),
{
    let x = a.map_values(|c: char| crate::text::ascii_lower(c));
    let y = b.map_values(|c: char| crate::text::ascii_lower(c));
    if eq_ascii_case(a, b) {
        assert(x.len() == y.len());
        assert forall|i: int| 0 <= i < a.len() implies same_letter(#[trigger] a[i], b[i]) by {
            assert(x[i] == y[i]);
        }
    }
    if a.len() == b.len() && forall|i: int|
        0 <= i < a.len() ==> same_letter(#[trigger] a[i], b[i]) {
        assert forall|i: int| 0 <= i < x.len() implies x[i] == y[i] by {
            assert(same_letter(a[i], b[i]));
        }
        assert(x =~= y);
    }
}

proof fn lemma_trim_start(s: Seq<char>) -> (n: int)
    ensures
        0 <= n <= s.len(),
        trim_start(s) == s.skip(n),
        forall|i: int| 0 <= i < n ==> is_space(#[trigger] s[i]),
        n < s.len() ==> !is_space(s[n]),
    decreases s.len(),
{
    if s.len() > 0 && is_space(s[0]) {
        let rest = s.skip(1);
        let n = lemma_trim_start(rest);
        assert(rest.skip(n) =~= s.skip(n + 1));
        assert forall|i: int| 0 <= i < n + 1 implies is_space(#[trigger] s[i]) by {
            if i > 0 {
                assert(rest[i - 1] == s[i]);
            }
        }
        n + 1
    } else {
        assert(s.skip(0) =~= s);
        0
    }
}

proof fn lemma_trim_end(s: Seq<char>) -> (n: int)
    ensures
        0 <= n <= s.len(),
        trim_end(s) == s.take(n),
        forall|i: int| n <= i < s.len() ==> is_space(#[trigger] s[i]),
        n > 0 ==> !is_space(s[n - 1]),
    decreases s.len(),
{
    if s.len() > 0 && is_space(s.last()) {
        let init = s.drop_last();
        let n = lemma_trim_end(init);
        assert(init.take(n) =~= s.take(n));
        assert forall|i: int| n <= i < s.len() implies is_space(#[trigger] s[i]) by {
            if i < init.len() {
                assert(init[i] == s[i]);
            }
        }
        n
    } else {
        assert(s.take(s.len() as int) =~= s);
        s.len() as int
    }
}

/// Trimming keeps one stretch of a text as it is: nothing but whitespace stands before or
/// after it, and it neither begins nor ends in whitespace.
pub proof fn law_trimming_takes_off_whitespace_alone(s: Seq<char>) -> (place: (int, int))
    ensures
        0 <= place.0 <= place.1 <= s.len(),
        trim(s) == s.subrange(place.0, place.1),
        forall|i: int| 0 <= i < place.0 ==> is_space(#[trigger] s[i]),
        forall|i: int| place.1 <= i < s.len() ==> is_space(#[trigger] s[i]),
        place.0 < place.1 ==> !is_space(s[place.0]) && !is_space(s[place.1 - 1]),
{
    let a = lemma_trim_start(s);
    let body = s.skip(a);
    let n = lemma_trim_end(body);
    assert(body.take(n) =~= s.subrange(a, a + n));
    assert forall|i: int| a + n <= i < s.len() implies is_space(#[trigger] s[i]) by {
        assert(body[i - a] == s[i]);
    }
    if n > 0 {
        assert(body[n - 1] == s[a + n - 1]);
        assert(body[0] == s[a]);
    }
    (a, a + n)
}

/// A text is parted at the first of the characters it is parted at: the two parts with the
/// character between them are the text, and the first does not hold it.
pub proof fn law_a_text_is_parted_at_the_first_place(s: Seq<char>, c: char)
    ensures
        split_once(s, c) is None <==> !s.contains(c),
        split_once(s, c) matches Some((a, b)) ==> s == a.push(c) + b && !a.contains(c),
{
    lemma_char_pos(s, c);
    match char_pos(s, c) {
        Some(i) => {
            assert(s[i] == c);
            assert(s =~= s.take(i).push(c) + s.skip(i + 1));
        },
        None => {},
    }
}

/// A prefix is taken off exactly where the text begins with it, and what is left over
/// follows it in the text.
pub proof fn law_a_prefix_and_its_rest_are_the_text(s: Seq<char>, prefix: Seq<char>)
    ensures
        strip_prefix(s, prefix) matches Some(rest) ==> s == prefix + rest,
        strip_prefix(s, prefix) is None ==> forall|rest: Seq<char>| s != #[trigger] (prefix + rest),
{
    if prefix.is_prefix_of(s) {
        assert(s =~= prefix + s.skip(prefix.len() as int));
    } else {
        assert forall|rest: Seq<char>| s != #[trigger] (prefix + rest) by {
            if s == prefix + rest {
                assert(prefix =~= s.subrange(0, prefix.len() as int));
            }
        }
    }
}

/// What follows a part is what follows its first place in the text.
pub proof fn law_what_follows_a_part_follows_it_at_once(s: Seq<char>, part: Seq<char>)
    ensures
        after_part(s, part) matches Some(rest) ==> exists|before: Seq<char>| s
            == #[trigger] (before + part) + rest,
    decreases s.len(),
{
    if part.is_prefix_of(s) {
        assert(s =~= (Seq::<char>::empty() + part) + s.skip(part.len() as int));
        assert(s.skip(0 + part.len() as int) =~= s.skip(part.len() as int));
    } else if s.len() > 0 {
        let tail = s.skip(1);
        law_what_follows_a_part_follows_it_at_once(tail, part);
        lemma_part_fits(tail, part);
        match part_pos(tail, part) {
            Some(i) => {
                let rest = tail.skip(i + part.len());
                assert(after_part(tail, part) == Some(rest));
                assert(s.skip(i + 1 + part.len()) =~= rest);
                let before = choose|before: Seq<char>| tail == #[trigger] (before + part) + rest;
                assert(s =~= ((seq![s[0]] + before) + part) + rest) by {
                    assert(s =~= seq![s[0]] + tail);
                }
            },
            None => {},
        }
    }
}

proof fn lemma_part_fits(s: Seq<char>, part: Seq<char>)
    ensures
        part_pos(s, part) matches Some(i) ==> 0 <= i && i + part.len() <= s.len(),
    decreases s.len(),
{
    if !part.is_prefix_of(s) && s.len() > 0 {
        lemma_part_fits(s.skip(1), part);
    }
}

/// Joined texts stand one after the other with the separator between every two: none by
/// itself is nothing, one by itself is itself, and one more is put behind the separator.
pub proof fn law_joined_texts_stand_in_order(items: Seq<Seq<char>>, last: Seq<char>, sep: Seq<char>)
    ensures
        items.len() == 0 ==> join(items, sep).len() == 0 && join(items.push(last), sep) == last,
        items.len() > 0 ==> join(items.push(last), sep) == join(items, sep) + sep + last,
{
    assert(items.push(last).drop_last() =~= items);
}

/// A number is written in digits that denote it, with no zero in front of another digit,
/// and is read again as it was written.
pub proof fn law_a_number_is_read_as_it_was_written(n: nat, max: nat)
    ensures
        decimal(n).len() > 0,
        all_digits(decimal(n)),
        digits_value(decimal(n)) == n,
        decimal(n).len() > 1 ==> decimal(n)[0] != '0',
        read_unsigned(decimal(n), max) == (if n <= max {
            Some(n)
        } else {
            None
        }),
    decreases n,
{
    if n < 10 {
        let s = decimal(n);
        assert(s.drop_last() =~= Seq::<char>::empty());
        assert(digits_value(s.drop_last()) == 0);
        assert(s[0] != '+');
    } else {
        law_a_number_is_read_as_it_was_written(n / 10, max);
        let s = decimal(n);
        assert(s.drop_last() =~= decimal(n / 10));
        assert forall|i: int| 0 <= i < s.len() implies '0' <= #[trigger] s[i] && s[i] <= '9' by {
            if i < s.len() - 1 {
                assert(decimal(n / 10)[i] == s[i]);
            }
        }
        if decimal(n / 10).len() == 1 {
            assert(n / 10 > 0);
            if n / 10 >= 10 {
                law_a_number_is_read_as_it_was_written(n / 10 / 10, max);
            }
            assert(n / 10 < 10);
            assert(decimal(n / 10)[0] != '0');
        }
        assert(s[0] == decimal(n / 10)[0]);
        assert('0' <= s[0]);
        assert(s[0] != '+');
    }
}

/// What is not a number is not read as one: it is one or more digits, perhaps behind a
/// plus sign, and no larger than allowed.
pub proof fn law_only_a_number_is_read_as_one(s: Seq<char>, max: nat, n: nat)
    requires
        read_unsigned(s, max) == Some(n),
    ensures
        n <= max,
        exists|d: Seq<char>|
            d.len() > 0 && (s == d || s == seq!['+'] + d) && #[trigger] digits_value(d) == n
                && forall|i: int| 0 <= i < d.len() ==> '0' <= #[trigger] d[i] && d[i] <= '9',
{
    let d = crate::text::unsigned_digits(s);
    if s[0] == '+' {
        assert(s =~= seq!['+'] + d);
    }
    assert(digits_value(d) == n);
}

/// A column is as wide as it was asked to be, or as what it holds where that is wider: what
/// it holds comes first and spaces fill it up.
pub proof fn law_a_column_is_filled_up(s: Seq<char>, width: nat)
    ensures
        pad_right(s, width).len() == (if s.len() < width {
            width
        } else {
            s.len()
        }),
        pad_right(s, width).take(s.len() as int) == s,
        forall|i: int| s.len() <= i < pad_right(s, width).len() ==> #[trigger] pad_right(s, width)[i]
            == ' ',
{
    assert(pad_right(s, width).take(s.len() as int) =~= s);
}

/// A number filled up with zeros has as many digits as asked for, denotes the same number,
/// and is the bare number where that is long enough.
pub proof fn law_zeros_in_front_change_nothing(n: nat, width: nat)
    ensures
        zero_padded(n, width).len() == (if decimal(n).len() < width {
            width
        } else {
            decimal(n).len()
        }),
        digits_value(zero_padded(n, width)) == n,
{
    law_a_number_is_read_as_it_was_written(n, n);
    if decimal(n).len() < width {
        lemma_zeros((width - decimal(n).len()) as nat, decimal(n));
    }
}

proof fn lemma_zeros(k: nat, d: Seq<char>)
    ensures
        digits_value(crate::text::repeated('0', k) + d) == digits_value(d),
    decreases d.len(), k,
{
    let z = crate::text::repeated('0', k);
    if d.len() > 0 {
        lemma_zeros(k, d.drop_last());
        assert((z + d).drop_last() =~= z + d.drop_last());
    } else if k > 0 {
        let fewer = crate::text::repeated('0', (k - 1) as nat);
        lemma_zeros((k - 1) as nat, d);
        assert((z + d).drop_last() =~= fewer + d);
    } else {
        assert(z + d =~= d);
    }
}

/// Replacing a character changes it wherever it stands, and nothing else.
pub proof fn law_replacing_changes_one_character(s: Seq<char>, from: char, to: char, i: int)
    requires
        0 <= i < s.len(),
    ensures
        replaced(s, from, to).len() == s.len(),
        s[i] == from ==> replaced(s, from, to)[i] == to,
        s[i] != from ==> replaced(s, from, to)[i] == s[i],
{
}

/// No line holds the end of a line, and a text without one is a line by itself.
pub proof fn law_lines_end_where_the_text_breaks(s: Seq<char>, i: int)
    requires
        0 <= i < lines(s).len(),
    ensures
        !lines(s)[i].contains('\n'),
        !s.contains('\n') ==> lines(s) == seq![s],
    decreases s.len(),
{
    lemma_char_pos(s, '\n');
    match char_pos(s, '\n') {
        None => {},
        Some(p) => {
            let head = s.take(p);
            let tail = s.skip(p + 1);
            assert(s[p] == '\n');
            assert(lines(s) == seq![crate::text::without_cr(head)] + lines(tail));
            if i > 0 {
                law_lines_end_where_the_text_breaks(tail, i - 1);
            } else {
                assert(forall|j: int| 0 <= j < head.len() ==> head[j] == #[trigger] s[j]);
            }
        },
    }
}

/// A text is as many lines as it has ends of lines, and one more where something follows
/// the last; the first is what stands before the first end, and the others are the lines
/// of what follows it.
pub proof fn law_lines_follow_each_other(first: Seq<char>, rest: Seq<char>)
    requires
        !first.contains('\n'),
    ensures
        first.len() == 0 || first.last() != '\r' ==> lines(first.push('\n') + rest) == seq![first]
            + lines(rest),
        lines(first + seq!['\r', '\n'] + rest) == seq![first] + lines(rest),
        lines(Seq::empty()).len() == 0,
{
    let a = first.push('\n') + rest;
    lemma_char_pos(a, '\n');
    assert(a[first.len() as int] == '\n');
    assert(forall|j: int| 0 <= j < first.len() ==> a[j] == #[trigger] first[j]);
    assert(char_pos(a, '\n') == Some(first.len() as int)) by {
        let p = char_pos(a, '\n')->0;
        if p < first.len() {
            assert(first[p] == '\n');
        }
    }
    assert(a.take(first.len() as int) =~= first);
    assert(a.skip(first.len() as int + 1) =~= rest);
    let b = first + seq!['\r', '\n'] + rest;
    lemma_char_pos(b, '\n');
    assert(b[first.len() as int + 1] == '\n');
    assert(b[first.len() as int] == '\r');
    assert(forall|j: int| 0 <= j < first.len() ==> b[j] == #[trigger] first[j]);
    assert(char_pos(b, '\n') == Some(first.len() as int + 1)) by {
        let p = char_pos(b, '\n')->0;
        if p < first.len() {
            assert(first[p] == '\n');
        }
    }
    assert(b.take(first.len() as int + 1) =~= first.push('\r'));
    assert(first.push('\r').drop_last() =~= first);
    assert(b.skip(first.len() as int + 2) =~= rest);
}

/// The length in bytes of a text is that of its parts together; a plain character is one
/// byte and none is more than four.
pub proof fn law_bytes_add_up(a: Seq<char>, b: Seq<char>)
    ensures
        byte_len(a + b) == byte_len(a) + byte_len(b),
        a.len() <= byte_len(a) <= 4 * a.len(),
        (forall|i: int| 0 <= i < a.len() ==> (#[trigger] a[i]) as int <= 127) ==> byte_len(a)
            == a.len(),
    decreases a.len() + b.len(),
{
    if b.len() > 0 {
        law_bytes_add_up(a, b.drop_last());
        assert((a + b).drop_last() =~= a + b.drop_last());
    } else {
        assert(a + b =~= a);
        if a.len() > 0 {
            law_bytes_add_up(a.drop_last(), b);
            assert(forall|i: int| 0 <= i < a.len() - 1 ==> a.drop_last()[i] == #[trigger] a[i]);
        }
    }
}

/// Of two different texts the smaller is the one that runs out first, or has the smaller
/// character in the first place where they differ.
pub proof fn law_texts_are_ordered_by_their_first_difference(
    a: Seq<char>,
    b: Seq<char>,
    n: int,
)
    requires
        0 <= n <= a.len(),
        n <= b.len(),
        forall|i: int| 0 <= i < n ==> #[trigger] a[i] == b[i],
    ensures
        n == a.len() && n < b.len() ==> text_lt(a, b),
        n == b.len() ==> !text_lt(a, b),
        n < a.len() && n < b.len() && a[n] != b[n] ==> (text_lt(a, b) <==> a[n] < b[n]),
    decreases n,
{
    if n > 0 {
        let x = a.skip(1);
        let y = b.skip(1);
        assert forall|i: int| 0 <= i < n - 1 implies #[trigger] x[i] == y[i] by {
            assert(a[i + 1] == b[i + 1]);
        }
        law_texts_are_ordered_by_their_first_difference(x, y, n - 1);
        assert(a[0] == b[0]);
    }
}

// ---------------------------------------------------------------------------
// Values
// ---------------------------------------------------------------------------

proof fn lemma_entry(entries: Seq<(String, Json)>, key: Seq<char>, k: int)
    requires
        0 <= k < entries.len(),
        entries[k].0@ == key,
        forall|j: int| 0 <= j < k ==> (#[trigger] entries[j]).0@ != key,
    ensures
        crate::json::entry(entries, key) == Some(entries[k].1),
    decreases k,
{
    if k > 0 {
        let rest = entries.skip(1);
        assert(entries[0].0@ != key);
        assert forall|j: int| 0 <= j < k - 1 implies (#[trigger] rest[j]).0@ != key by {
            assert(entries[j + 1].0@ != key);
        }
        lemma_entry(rest, key, k - 1);
    }
}

proof fn lemma_no_entry(entries: Seq<(String, Json)>, key: Seq<char>)
    requires
        forall|j: int| 0 <= j < entries.len() ==> (#[trigger] entries[j]).0@ != key,
    ensures
        crate::json::entry(entries, key) is None,
    decreases entries.len(),
{
    if entries.len() > 0 {
        let rest = entries.skip(1);
        assert(entries[0].0@ != key);
        assert forall|j: int| 0 <= j < rest.len() implies (#[trigger] rest[j]).0@ != key by {
            assert(entries[j + 1].0@ != key);
        }
        lemma_no_entry(rest, key);
    }
}

/// What stands under a key of an object is found under it, as what it is: a text as a text,
/// a number as a number and a truth value as one.
pub proof fn law_a_member_is_found_under_its_key(
    entries: Vec<(String, Json)>,
    key: Seq<char>,
    k: int,
    default: Seq<char>,
)
    requires
        0 <= k < entries@.len(),
        entries@[k].0@ == key,
        forall|j: int| 0 <= j < k ==> (#[trigger] entries@[j]).0@ != key,
    ensures
        ({
            let value = Json::Object(entries);
            let found = entries@[k].1;
            &&& member(value, key) == Some(found)
            &&& at(value, key) == found
            &&& found matches Json::Str(s) ==> text_at(value, key) == Some(s@) && text_or(
                value,
                key,
                default,
            ) == s@
            &&& !(found is Str) ==> text_at(value, key) is None && text_or(value, key, default)
                == default
            &&& found matches Json::Number(n) ==> unsigned_at(value, key) == n.unsigned && (
            n.unsigned matches Some(m) ==> unsigned_or_0(value, key) == m)
            &&& !(found is Number) ==> unsigned_at(value, key) is None && unsigned_or_0(value, key)
                == 0
            &&& flag_at(value, key) <==> found == Json::Bool(true)
        }),
{
    lemma_entry(entries@, key, k);
}

/// Nothing is found under a key that an object does not have, nor in what is no object.
pub proof fn law_nothing_is_found_under_another_key(
    value: Json,
    key: Seq<char>,
    default: Seq<char>,
)
    requires
        value matches Json::Object(entries) ==> forall|j: int|
            0 <= j < entries@.len() ==> (#[trigger] entries@[j]).0@ != key,
    ensures
        member(value, key) is None,
        text_at(value, key) is None,
        text_or(value, key, default) == default,
        unsigned_at(value, key) is None,
        unsigned_or_0(value, key) == 0,
        !flag_at(value, key),
{
    if let Json::Object(entries) = value {
        lemma_no_entry(entries@, key);
    }
}

} // verus!
