//! A map from strings that keeps its keys in order, and sorted lists of strings.

use crate::text::{chars_of, str_eq, texts};
use vstd::prelude::*;

verus! {

broadcast use crate::text::group_texts;

/// The order of strings: by the first character in which they differ, a prefix first.
pub open spec fn text_lt(a: Seq<char>, b: Seq<char>) -> bool
    decreases a.len(),
{
    if b.len() == 0 {
        false
    } else if a.len() == 0 {
        true
    } else if a[0] == b[0] {
        text_lt(a.skip(1), b.skip(1))
    } else {
        a[0] < b[0]
    }
}

pub proof fn lemma_text_lt_irreflexive(a: Seq<char>)
    ensures
        !text_lt(a, a),
    decreases a.len(),
{
    if a.len() > 0 {
        lemma_text_lt_irreflexive(a.skip(1));
    }
}

pub proof fn lemma_text_lt_total(a: Seq<char>, b: Seq<char>)
    ensures
        a == b || text_lt(a, b) || text_lt(b, a),
    decreases a.len(),
{
    if a.len() > 0 && b.len() > 0 && a[0] == b[0] {
        lemma_text_lt_total(a.skip(1), b.skip(1));
        if a.skip(1) == b.skip(1) {
            assert(a =~= seq![a[0]] + a.skip(1));
            assert(b =~= seq![b[0]] + b.skip(1));
        }
    } else if a.len() == 0 && b.len() == 0 {
        assert(a =~= b);
    }
}

pub proof fn lemma_text_lt_transitive(a: Seq<char>, b: Seq<char>, c: Seq<char>)
    requires
        text_lt(a, b),
        text_lt(b, c),
    ensures
        text_lt(a, c),
    decreases a.len(),
{
    if a.len() > 0 && a[0] == b[0] && b[0] == c[0] {
        lemma_text_lt_transitive(a.skip(1), b.skip(1), c.skip(1));
    }
}

pub proof fn lemma_text_lt_asymmetric(a: Seq<char>, b: Seq<char>)
    requires
        text_lt(a, b),
    ensures
        !text_lt(b, a),
        a != b,
{
    lemma_text_lt_irreflexive(a);
    if text_lt(b, a) {
        lemma_text_lt_transitive(a, b, a);
    }
}

/// Whether `a` comes before `b`.
pub fn text_before(a: &str, b: &str) -> (r: bool)
    ensures
        r == text_lt(a@, b@),
{
    let x = chars_of(a);
    let y = chars_of(b);
    let mut i: usize = 0;
    assert(a@.skip(0) =~= a@);
    assert(b@.skip(0) =~= b@);
    while i < x.len() && i < y.len() && x[i] == y[i]
        invariant
            x@ == a@,
            y@ == b@,
            i <= x@.len(),
            i <= y@.len(),
            text_lt(a@, b@) == text_lt(a@.skip(i as int), b@.skip(i as int)),
        decreases x@.len() - i,
    {
        assert(a@.skip(i as int).skip(1) =~= a@.skip(i as int + 1));
        assert(b@.skip(i as int).skip(1) =~= b@.skip(i as int + 1));
        i = i + 1;
    }
    if i == y.len() {
        false
    } else if i == x.len() {
        true
    } else {
        x[i] < y[i]
    }
}

/// Whether the strings of `keys` strictly ascend.
pub open spec fn ascending(keys: Seq<Seq<char>>) -> bool {
    forall|i: int, j: int| 0 <= i < j < keys.len() ==> #[trigger] text_lt(keys[i], #[trigger] keys[j])
}

/// A map from strings to `V`; its entries stand in the order of their keys.
#[derive(Debug, PartialEq, Eq)]
pub struct TextMap<V> {
    pub entries: Vec<(String, V)>,
}

/// The keys of `entries`, in order.
pub open spec fn entry_keys<V>(entries: Seq<(String, V)>) -> Seq<Seq<char>> {
    entries.map_values(|e: (String, V)| e.0@)
}

/// The map that a list of entries stands for.
pub open spec fn entry_map<V>(entries: Seq<(String, V)>) -> Map<Seq<char>, V>
    decreases entries.len(),
{
    if entries.len() == 0 {
        Map::empty()
    } else {
        entry_map(entries.drop_last()).insert(entries.last().0@, entries.last().1)
    }
}

impl<V> View for TextMap<V> {
    type V = Map<Seq<char>, V>;

    open spec fn view(&self) -> Map<Seq<char>, V> {
        entry_map(self.entries@)
    }
}

/// With ascending keys, an entry's value is what the map holds under its key,
/// and the map holds nothing else.
pub proof fn lemma_entry_map<V>(entries: Seq<(String, V)>)
    requires
        ascending(entry_keys(entries)),
    ensures
        forall|i: int|
            0 <= i < entries.len() ==> #[trigger] entry_map(entries).contains_key(
                entry_keys(entries)[i],
            ) && entry_map(entries)[entry_keys(entries)[i]] == entries[i].1,
        forall|k: Seq<char>| #[trigger]
            entry_map(entries).contains_key(k) ==> exists|i: int|
                0 <= i < entries.len() && #[trigger] entry_keys(entries)[i] == k,
    decreases entries.len(),
{
    let keys = entry_keys(entries);
    if entries.len() > 0 {
        let init = entries.drop_last();
        let last = entries.len() - 1;
        assert(entry_keys(init) =~= keys.drop_last());
        assert forall|i: int, j: int| 0 <= i < j < init.len() implies #[trigger] text_lt(
            entry_keys(init)[i],
            #[trigger] entry_keys(init)[j],
        ) by {
            assert(text_lt(keys[i], keys[j]));
        }
        lemma_entry_map(init);
        assert forall|i: int| 0 <= i < entries.len() implies #[trigger] entry_map(
            entries,
        ).contains_key(keys[i]) && entry_map(entries)[keys[i]] == entries[i].1 by {
            if i < last {
                assert(entry_keys(init)[i] == keys[i]);
                assert(text_lt(keys[i], keys[last]));
                lemma_text_lt_irreflexive(keys[last]);
                assert(entry_map(init).contains_key(entry_keys(init)[i]));
            }
        }
        assert forall|k: Seq<char>| #[trigger] entry_map(entries).contains_key(k) implies exists|
            i: int,
        | 0 <= i < entries.len() && #[trigger] keys[i] == k by {
            if k == entries.last().0@ {
                assert(keys[last] == k);
            } else {
                assert(entry_map(init).contains_key(k));
                let i = choose|i: int| 0 <= i < init.len() && #[trigger] entry_keys(init)[i] == k;
                assert(keys[i] == k);
            }
        }
    }
}

impl<V> TextMap<V> {
    /// The keys strictly ascend; no key occurs twice.
    pub open spec fn wf(self) -> bool {
        ascending(entry_keys(self.entries@))
    }

    /// The keys, in order.
    pub open spec fn keys(self) -> Seq<Seq<char>> {
        entry_keys(self.entries@)
    }

    /// The map without entries.
    pub fn new() -> (r: Self)
        ensures
            r.wf(),
            r@ == Map::<Seq<char>, V>::empty(),
            r.entries@.len() == 0,
    {
        TextMap { entries: Vec::new() }
    }

    /// The first place whose key does not come before `key`.
    fn place(&self, key: &str) -> (r: usize)
        requires
            self.wf(),
        ensures
            r <= self.entries@.len(),
            forall|i: int| 0 <= i < r ==> text_lt(#[trigger] self.keys()[i], key@),
            forall|i: int|
                r <= i < self.entries@.len() ==> !text_lt(#[trigger] self.keys()[i], key@),
    {
        let mut i: usize = 0;
        while i < self.entries.len()
            invariant
                self.wf(),
                i <= self.entries@.len(),
                forall|j: int| 0 <= j < i ==> text_lt(#[trigger] self.keys()[j], key@),
            decreases self.entries@.len() - i,
        {
            assert(self.keys()[i as int] == self.entries@[i as int].0@);
            if !text_before(self.entries[i].0.as_str(), key) {
                assert forall|j: int| i <= j < self.entries@.len() implies !text_lt(
                    #[trigger] self.keys()[j],
                    key@,
                ) by {
                    if j > i && text_lt(self.keys()[j], key@) {
                        assert(text_lt(self.keys()[i as int], self.keys()[j]));
                        lemma_text_lt_transitive(self.keys()[i as int], self.keys()[j], key@);
                    }
                }
                return i;
            }
            i = i + 1;
        }
        i
    }

    /// The value under `key`.
    pub fn get(&self, key: &str) -> (r: Option<&V>)
        requires
            self.wf(),
        ensures
            match r {
                Some(v) => self@.contains_key(key@) && self@[key@] == *v,
                None => !self@.contains_key(key@),
            },
    {
        proof {
            lemma_entry_map(self.entries@);
        }
        let i = self.place(key);
        if i < self.entries.len() && str_eq(self.entries[i].0.as_str(), key) {
            assert(self.keys()[i as int] == key@);
            Some(&self.entries[i].1)
        } else {
            proof {
                if self@.contains_key(key@) {
                    let j = choose|j: int| 0 <= j < self.entries@.len() && self.keys()[j] == key@;
                    lemma_text_lt_irreflexive(key@);
                    assert(j > i);
                    assert(text_lt(self.keys()[i as int], self.keys()[j]));
                }
            }
            None
        }
    }

    /// Whether there is a value under `key`.
    pub fn contains_key(&self, key: &str) -> (r: bool)
        requires
            self.wf(),
        ensures
            r == self@.contains_key(key@),
    {
        self.get(key).is_some()
    }

    /// Puts `value` under `key`, in place of what was there.
    pub fn insert(&mut self, key: String, value: V)
        requires
            old(self).wf(),
        ensures
            final(self).wf(),
            final(self)@ == old(self)@.insert(key@, value),
    {
        let ghost k = key@;
        let ghost before = self.entries@;
        let ghost keys = entry_keys(before);
        let i = self.place(key.as_str());
        proof {
            lemma_entry_map(before);
            lemma_text_lt_irreflexive(k);
            assert(self.keys() == keys);
            assert forall|j: int| 0 <= j < i implies text_lt(#[trigger] keys[j], k) by {
                assert(text_lt(self.keys()[j], k));
            }
            assert forall|j: int| i <= j < keys.len() implies !text_lt(#[trigger] keys[j], k) by {
                assert(!text_lt(self.keys()[j], k));
            }
        }
        if i < self.entries.len() && str_eq(self.entries[i].0.as_str(), key.as_str()) {
            assert(keys[i as int] == k);
            self.entries.remove(i);
            self.entries.insert(i, (key, value));
            let ghost after = self.entries@;
            proof {
                assert(entry_keys(after) =~= keys);
                lemma_entry_map(after);
                assert(entry_map(after) =~= entry_map(before).insert(k, value)) by {
                    assert forall|q: Seq<char>|
                        entry_map(after).contains_key(q) == entry_map(before).insert(
                            k,
                            value,
                        ).contains_key(q) by {
                        if entry_map(after).contains_key(q) {
                            let j = choose|j: int|
                                0 <= j < after.len() && entry_keys(after)[j] == q;
                            assert(entry_map(before).contains_key(keys[j]));
                        }
                        if entry_map(before).contains_key(q) {
                            let j = choose|j: int| 0 <= j < before.len() && keys[j] == q;
                            assert(entry_map(after).contains_key(entry_keys(after)[j]));
                        }
                        assert(entry_map(after).contains_key(entry_keys(after)[i as int]));
                    }
                    assert forall|q: Seq<char>| entry_map(after).contains_key(q) implies entry_map(
                        after,
                    )[q] == entry_map(before).insert(k, value)[q] by {
                        let j = choose|j: int| 0 <= j < after.len() && entry_keys(after)[j] == q;
                        assert(entry_map(after).contains_key(entry_keys(after)[j]));
                        assert(entry_map(before).contains_key(keys[j]));
                        if j != i {
                            if j < i {
                                assert(text_lt(keys[j], keys[i as int]));
                            } else {
                                assert(text_lt(keys[i as int], keys[j]));
                            }
                            lemma_text_lt_irreflexive(keys[j]);
                        }
                    }
                }
            }
        } else {
            proof {
                if i < before.len() {
                    lemma_text_lt_total(keys[i as int], k);
                }
            }
            self.entries.insert(i, (key, value));
            let ghost after = self.entries@;
            proof {
                let new_keys = entry_keys(after);
                assert(new_keys =~= keys.insert(i as int, k));
                assert forall|a: int, b: int| 0 <= a < b < new_keys.len() implies #[trigger] text_lt(
                    new_keys[a],
                    #[trigger] new_keys[b],
                ) by {
                    if b < i {
                        assert(text_lt(keys[a], keys[b]));
                    } else if b == i {
                        assert(text_lt(keys[a], k));
                    } else if a < i {
                        assert(text_lt(keys[a], keys[b - 1]));
                    } else if a == i {
                        lemma_text_lt_total(keys[i as int], k);
                        assert(!text_lt(keys[b - 1], k));
                        assert(text_lt(k, keys[i as int]));
                        if b - 1 > i {
                            assert(text_lt(keys[i as int], keys[b - 1]));
                            lemma_text_lt_transitive(k, keys[i as int], keys[b - 1]);
                        }
                    } else {
                        assert(text_lt(keys[a - 1], keys[b - 1]));
                    }
                }
                lemma_entry_map(after);
                assert(!entry_map(before).contains_key(k)) by {
                    if entry_map(before).contains_key(k) {
                        let j = choose|j: int| 0 <= j < before.len() && keys[j] == k;
                        assert(j > i);
                        assert(text_lt(keys[i as int], keys[j]));
                    }
                }
                assert(entry_map(after) =~= entry_map(before).insert(k, value)) by {
                    assert forall|q: Seq<char>|
                        entry_map(after).contains_key(q) == entry_map(before).insert(
                            k,
                            value,
                        ).contains_key(q) by {
                        if entry_map(after).contains_key(q) {
                            let j = choose|j: int| 0 <= j < after.len() && new_keys[j] == q;
                            if j < i {
                                assert(entry_map(before).contains_key(keys[j]));
                            } else if j > i {
                                assert(entry_map(before).contains_key(keys[j - 1]));
                            }
                        }
                        if entry_map(before).contains_key(q) {
                            let j = choose|j: int| 0 <= j < before.len() && keys[j] == q;
                            if j < i {
                                assert(entry_map(after).contains_key(new_keys[j]));
                            } else {
                                assert(entry_map(after).contains_key(new_keys[j + 1]));
                            }
                        }
                        assert(entry_map(after).contains_key(new_keys[i as int]));
                    }
                    assert forall|q: Seq<char>| entry_map(after).contains_key(q) implies entry_map(
                        after,
                    )[q] == entry_map(before).insert(k, value)[q] by {
                        let j = choose|j: int| 0 <= j < after.len() && new_keys[j] == q;
                        assert(entry_map(after).contains_key(new_keys[j]));
                        if j < i {
                            assert(entry_map(before).contains_key(keys[j]));
                        } else if j > i {
                            assert(entry_map(before).contains_key(keys[j - 1]));
                        }
                    }
                }
            }
        }
    }
}

/// `key` at its place in an ascending list; the list itself where it is already there.
pub open spec fn insert_key(keys: Seq<Seq<char>>, key: Seq<char>) -> Seq<Seq<char>>
    decreases keys.len(),
{
    if keys.len() == 0 {
        seq![key]
    } else if keys[0] == key {
        keys
    } else if text_lt(key, keys[0]) {
        seq![key] + keys
    } else {
        seq![keys[0]] + insert_key(keys.skip(1), key)
    }
}

/// The distinct strings of `items`, in order.
pub open spec fn sorted_distinct(items: Seq<Seq<char>>) -> Seq<Seq<char>>
    decreases items.len(),
{
    if items.len() == 0 {
        Seq::empty()
    } else {
        insert_key(sorted_distinct(items.drop_last()), items.last())
    }
}

proof fn lemma_insert_key(keys: Seq<Seq<char>>, key: Seq<char>)
    requires
        ascending(keys),
    ensures
        ascending(insert_key(keys, key)),
        forall|k: Seq<char>| #[trigger]
            insert_key(keys, key).contains(k) <==> keys.contains(k) || k == key,
    decreases keys.len(),
{
    let r = insert_key(keys, key);
    if keys.len() == 0 {
        assert(r[0] == key);
    } else if keys[0] == key {
        assert(keys.contains(key));
    } else if text_lt(key, keys[0]) {
        assert forall|i: int, j: int| 0 <= i < j < r.len() implies #[trigger] text_lt(
            r[i],
            #[trigger] r[j],
        ) by {
            if i == 0 {
                if j > 1 {
                    assert(text_lt(keys[0], keys[j - 1]));
                    lemma_text_lt_transitive(key, keys[0], keys[j - 1]);
                }
            } else {
                assert(text_lt(keys[i - 1], keys[j - 1]));
            }
        }
        assert forall|k: Seq<char>| #[trigger] r.contains(k) <==> keys.contains(k) || k == key by {
            if keys.contains(k) {
                let i = choose|i: int| 0 <= i < keys.len() && keys[i] == k;
                assert(r[i + 1] == k);
            }
            if k == key {
                assert(r[0] == k);
            }
            if r.contains(k) {
                let i = choose|i: int| 0 <= i < r.len() && r[i] == k;
                if i > 0 {
                    assert(keys[i - 1] == k);
                }
            }
        }
    } else {
        let rest = keys.skip(1);
        assert forall|i: int, j: int| 0 <= i < j < rest.len() implies #[trigger] text_lt(
            rest[i],
            #[trigger] rest[j],
        ) by {
            assert(text_lt(keys[i + 1], keys[j + 1]));
        }
        lemma_insert_key(rest, key);
        let tail = insert_key(rest, key);
        lemma_text_lt_total(key, keys[0]);
        assert forall|i: int, j: int| 0 <= i < j < r.len() implies #[trigger] text_lt(
            r[i],
            #[trigger] r[j],
        ) by {
            if i == 0 {
                assert(tail.contains(tail[j - 1]));
                assert(r[j] == tail[j - 1]);
                if tail[j - 1] != key {
                    assert(rest.contains(tail[j - 1]));
                    let p = choose|p: int| 0 <= p < rest.len() && rest[p] == tail[j - 1];
                    assert(text_lt(keys[0], keys[p + 1]));
                }
            } else {
                assert(text_lt(tail[i - 1], tail[j - 1]));
            }
        }
        assert forall|k: Seq<char>| #[trigger] r.contains(k) <==> keys.contains(k) || k == key by {
            if r.contains(k) {
                let i = choose|i: int| 0 <= i < r.len() && r[i] == k;
                if i > 0 {
                    assert(tail.contains(tail[i - 1]));
                    if k != key {
                        assert(rest.contains(k));
                        let p = choose|p: int| 0 <= p < rest.len() && rest[p] == k;
                        assert(keys[p + 1] == k);
                    }
                } else {
                    assert(keys[0] == k);
                }
            }
            if keys.contains(k) {
                let i = choose|i: int| 0 <= i < keys.len() && keys[i] == k;
                if i == 0 {
                    assert(r[0] == k);
                } else {
                    assert(rest[i - 1] == k);
                    assert(tail.contains(k));
                    let p = choose|p: int| 0 <= p < tail.len() && tail[p] == k;
                    assert(r[p + 1] == k);
                }
            }
            if k == key {
                assert(tail.contains(k));
                let p = choose|p: int| 0 <= p < tail.len() && tail[p] == k;
                assert(r[p + 1] == k);
            }
        }
    }
}

/// `sorted_distinct` is what its name says: ascending, and holding exactly the
/// strings of `items`.
pub proof fn lemma_sorted_distinct(items: Seq<Seq<char>>)
    ensures
        ascending(sorted_distinct(items)),
        forall|k: Seq<char>| #[trigger]
            sorted_distinct(items).contains(k) <==> items.contains(k),
    decreases items.len(),
{
    if items.len() > 0 {
        let init = items.drop_last();
        lemma_sorted_distinct(init);
        lemma_insert_key(sorted_distinct(init), items.last());
        assert forall|k: Seq<char>| #[trigger]
            sorted_distinct(items).contains(k) <==> items.contains(k) by {
            if items.contains(k) {
                let i = choose|i: int| 0 <= i < items.len() && items[i] == k;
                if i < items.len() - 1 {
                    assert(init[i] == k);
                }
            }
            if init.contains(k) {
                let i = choose|i: int| 0 <= i < init.len() && init[i] == k;
                assert(items[i] == k);
            }
            assert(items[items.len() - 1] == items.last());
        }
    }
}

/// Puts `key` at its place in an ascending list, unless it is already there.
pub fn add_sorted(keys: &mut Vec<String>, key: &str)
    requires
        ascending(texts(old(keys)@)),
    ensures
        texts(final(keys)@) == insert_key(texts(old(keys)@), key@),
        ascending(texts(final(keys)@)),
{
    let ghost all = texts(keys@);
    proof {
        lemma_insert_key(all, key@);
        assert(all.skip(0) =~= all);
        assert(all.take(0) + insert_key(all, key@) =~= insert_key(all, key@));
    }
    let mut i: usize = 0;
    while i < keys.len() && text_before(keys[i].as_str(), key)
        invariant
            texts(keys@) == all,
            keys@ == old(keys)@,
            i <= keys@.len(),
            insert_key(all, key@) == all.take(i as int) + insert_key(all.skip(i as int), key@),
        decreases keys@.len() - i,
    {
        let ghost rest = all.skip(i as int);
        proof {
            assert(rest[0] == all[i as int]);
            lemma_text_lt_asymmetric(all[i as int], key@);
            assert(rest.skip(1) =~= all.skip(i as int + 1));
            assert(all.take(i as int) + (seq![rest[0]] + insert_key(rest.skip(1), key@))
                =~= all.take(i as int + 1) + insert_key(all.skip(i as int + 1), key@));
        }
        i = i + 1;
    }
    let ghost rest = all.skip(i as int);
    if i < keys.len() && str_eq(keys[i].as_str(), key) {
        assert(rest[0] == key@);
        assert(all.take(i as int) + rest =~= all);
    } else {
        let copy = key.to_owned();
        keys.insert(i, copy);
        proof {
            if i < all.len() {
                assert(rest[0] == all[i as int]);
                lemma_text_lt_total(all[i as int], key@);
            }
            assert(texts(keys@) =~= all.insert(i as int, key@));
            assert(texts(keys@) =~= insert_key(all, key@));
        }
    }
}

/// The distinct strings of `items`, in order.
pub fn sorted_distinct_strings(items: &[String]) -> (r: Vec<String>)
    ensures
        texts(r@) == sorted_distinct(texts(items@)),
{
    let mut out: Vec<String> = Vec::new();
    let mut i: usize = 0;
    assert(texts(items@).take(0) =~= Seq::<Seq<char>>::empty());
    assert(texts(out@) =~= Seq::<Seq<char>>::empty());
    while i < items.len()
        invariant
            i <= items@.len(),
            texts(out@) == sorted_distinct(texts(items@).take(i as int)),
            ascending(texts(out@)),
        decreases items@.len() - i,
    {
        add_sorted(&mut out, items[i].as_str());
        assert(texts(items@).take(i as int + 1).drop_last() =~= texts(items@).take(i as int));
        i = i + 1;
    }
    assert(texts(items@).take(items@.len() as int) =~= texts(items@));
    out
}

} // verus!
