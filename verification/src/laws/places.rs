//! Where the elements of a part of a sequence come from.

use crate::text::{has_part, pad_right};
use vstd::prelude::*;

verus! {

/// Whether `places` are places of a sequence of this length, each behind the one before.
pub open spec fn rising(places: Seq<int>, len: nat) -> bool {
    &&& forall|i: int| 0 <= i < places.len() ==> 0 <= #[trigger] places[i] < len
    &&& forall|i: int, j: int|
        0 <= i < j < places.len() ==> #[trigger] places[i] < #[trigger] places[j]
}

/// The places that a filter keeps, in their order: all of those that it wants, and no
/// other.
pub proof fn filtered_places<A>(s: Seq<A>, keep: spec_fn(A) -> bool) -> (places: Seq<int>)
    ensures
        rising(places, s.len()),
        places.len() == s.filter(keep).len(),
        forall|j: int|
            0 <= j < places.len() ==> s[#[trigger] places[j]] == s.filter(keep)[j] && keep(
                s[places[j]],
            ),
        forall|k: int| 0 <= k < s.len() && keep(#[trigger] s[k]) ==> places.contains(k),
    decreases s.len(),
{
    reveal(Seq::filter);
    if s.len() == 0 {
        Seq::empty()
    } else {
        let n = s.len() - 1;
        let init = s.drop_last();
        let before = filtered_places(init, keep);
        assert(forall|k: int| 0 <= k < n ==> init[k] == #[trigger] s[k]);
        if keep(s[n]) {
            let places = before.push(n);
            assert forall|j: int| 0 <= j < places.len() implies s[#[trigger] places[j]]
                == s.filter(keep)[j] && keep(s[places[j]]) by {
                if j < before.len() {
                    assert(places[j] == before[j]);
                    assert(init[before[j]] == init.filter(keep)[j]);
                }
            }
            assert forall|k: int| 0 <= k < s.len() && keep(#[trigger] s[k]) implies places.contains(
                k,
            ) by {
                if k < n {
                    assert(keep(init[k]));
                    let j = choose|j: int| 0 <= j < before.len() && before[j] == k;
                    assert(places[j] == k);
                } else {
                    assert(places[before.len() as int] == k);
                }
            }
            places
        } else {
            assert forall|k: int| 0 <= k < s.len() && keep(#[trigger] s[k]) implies before.contains(
                k,
            ) by {
                assert(keep(init[k]));
            }
            assert forall|j: int| 0 <= j < before.len() implies s[#[trigger] before[j]]
                == s.filter(keep)[j] && keep(s[before[j]]) by {
                assert(init[before[j]] == init.filter(keep)[j]);
            }
            before
        }
    }
}

pub broadcast proof fn lemma_in_either(a: Seq<Seq<char>>, b: Seq<Seq<char>>, x: Seq<char>)
    ensures
        #[trigger] (a + b).contains(x) <==> a.contains(x) || b.contains(x),
{
    if a.contains(x) {
        let i = choose|i: int| 0 <= i < a.len() && a[i] == x;
        assert((a + b)[i] == x);
    }
    if b.contains(x) {
        let i = choose|i: int| 0 <= i < b.len() && b[i] == x;
        assert((a + b)[a.len() + i] == x);
    }
    if (a + b).contains(x) {
        let i = choose|i: int| 0 <= i < (a + b).len() && (a + b)[i] == x;
        if i < a.len() {
            assert(a[i] == x);
        } else {
            assert(b[i - a.len()] == x);
        }
    }
}

pub broadcast proof fn lemma_in_pushed(a: Seq<Seq<char>>, y: Seq<char>, x: Seq<char>)
    ensures
        #[trigger] a.push(y).contains(x) <==> a.contains(x) || x == y,
{
    if a.contains(x) {
        let i = choose|i: int| 0 <= i < a.len() && a[i] == x;
        assert(a.push(y)[i] == x);
    }
    if x == y {
        assert(a.push(y)[a.len() as int] == x);
    }
    if a.push(y).contains(x) && x != y {
        let i = choose|i: int| 0 <= i < a.push(y).len() && a.push(y)[i] == x;
        assert(a[i] == x);
    }
}

/// What is part of either of two texts is part of both together.
pub broadcast proof fn lemma_part_of_either(a: Seq<char>, b: Seq<char>, p: Seq<char>)
    ensures
        has_part(a, p) || has_part(b, p) ==> #[trigger] has_part(a + b, p),
{
    if has_part(a, p) {
        let i = choose|i: int|
            0 <= i && i + p.len() <= a.len() && #[trigger] a.subrange(i, i + p.len()) == p;
        assert((a + b).subrange(i, i + p.len()) =~= a.subrange(i, i + p.len()));
    }
    if has_part(b, p) {
        let i = choose|i: int|
            0 <= i && i + p.len() <= b.len() && #[trigger] b.subrange(i, i + p.len()) == p;
        let k = a.len() + i;
        assert((a + b).subrange(k, k + p.len()) =~= b.subrange(i, i + p.len()));
    }
}

/// A text is part of itself.
pub broadcast proof fn lemma_part_of_itself(s: Seq<char>, p: Seq<char>)
    ensures
        s == p ==> #[trigger] has_part(s, p),
{
    assert(s.subrange(0, s.len() as int) =~= s);
    if s == p {
        assert(s.subrange(0, 0 + p.len() as int) == p);
    }
}

/// A text is part of the column that it fills.
pub broadcast proof fn lemma_part_of_column(s: Seq<char>, width: nat, p: Seq<char>)
    ensures
        s == p ==> #[trigger] has_part(pad_right(s, width), p),
{
    let c = pad_right(s, width);
    assert(c.subrange(0, s.len() as int) =~= s);
    if s == p {
        assert(c.subrange(0, 0 + p.len() as int) == p);
    }
}

} // verus!
