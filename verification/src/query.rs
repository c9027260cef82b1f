//! Ordered key/value lists in which a key occurs once, and the splitting of
//! a raw query string into such a list.
//!
//! A list keeps its keys in the order of their first appearance; a later
//! value for a key replaces the earlier one in place.

use vstd::prelude::*;
use vstd::string::StringExecFns;
use crate::text::{chars_of, find_from, first_index, split, split_on, views};
use crate::text::lemma_first_index_unique;

verus! {

/// The least index `i >= from` whose key is `key`, or `pairs.len()` where there is none.
pub open spec fn key_index_from(
    pairs: Seq<(Seq<char>, Seq<char>)>,
    key: Seq<char>,
    from: int,
) -> int
    decreases pairs.len() - from,
{
    if from < 0 || from >= pairs.len() {
        pairs.len() as int
    } else if pairs[from].0 == key {
        from
    } else {
        key_index_from(pairs, key, from + 1)
    }
}

/// The index of the first pair whose key is `key`, or `pairs.len()`.
pub open spec fn key_index(pairs: Seq<(Seq<char>, Seq<char>)>, key: Seq<char>) -> int {
    key_index_from(pairs, key, 0)
}

/// Whether some pair has the key `key`.
pub open spec fn has_key(pairs: Seq<(Seq<char>, Seq<char>)>, key: Seq<char>) -> bool {
    key_index(pairs, key) < pairs.len()
}

/// The value of the first pair whose key is `key`.
pub open spec fn lookup(pairs: Seq<(Seq<char>, Seq<char>)>, key: Seq<char>) -> Option<Seq<char>> {
    if has_key(pairs, key) {
        Some(pairs[key_index(pairs, key)].1)
    } else {
        None
    }
}

/// No key occurs twice.
pub open spec fn distinct_keys(pairs: Seq<(Seq<char>, Seq<char>)>) -> bool {
    forall|i: int, j: int| 0 <= i < j < pairs.len() ==> pairs[i].0 != pairs[j].0
}

/// `pairs` with `key` set to `value`: in place where the key is there, at the
/// end where it is new.
pub open spec fn upsert(
    pairs: Seq<(Seq<char>, Seq<char>)>,
    key: Seq<char>,
    value: Seq<char>,
) -> Seq<(Seq<char>, Seq<char>)> {
    if has_key(pairs, key) {
        pairs.update(key_index(pairs, key), (key, value))
    } else {
        pairs.push((key, value))
    }
}

/// The list that results from setting each pair of `pairs` in turn, so that
/// of two pairs with one key the later gives the value.
pub open spec fn last_wins(pairs: Seq<(Seq<char>, Seq<char>)>) -> Seq<(Seq<char>, Seq<char>)>
    decreases pairs.len(),
{
    if pairs.len() == 0 {
        Seq::empty()
    } else {
        upsert(last_wins(pairs.drop_last()), pairs.last().0, pairs.last().1)
    }
}

/// The key and value of one `k=v` piece: the key is what stands before the
/// first `=`, the value all that stands behind it, further `=` included.
/// A piece without `=` is no pair.
pub open spec fn pair_of(piece: Seq<char>) -> Option<(Seq<char>, Seq<char>)> {
    let i = first_index(piece, '=');
    if i < 0 || i >= piece.len() {
        None
    } else {
        Some((piece.take(i), piece.skip(i + 1)))
    }
}

/// The pairs among `pieces`, in order, pieces without `=` left out.
pub open spec fn pairs_of(pieces: Seq<Seq<char>>) -> Seq<(Seq<char>, Seq<char>)>
    decreases pieces.len(),
{
    if pieces.len() == 0 {
        Seq::empty()
    } else {
        match pair_of(pieces.last()) {
            Some(pair) => pairs_of(pieces.drop_last()).push(pair),
            None => pairs_of(pieces.drop_last()),
        }
    }
}

/// The key/value list of a raw query string: its `&`-separated `k=v` pieces,
/// malformed pieces dropped, the last value of a key kept.
pub open spec fn query_pairs(raw: Seq<char>) -> Seq<(Seq<char>, Seq<char>)> {
    last_wins(pairs_of(split(raw, '&')))
}

pub proof fn lemma_key_index_from_bounds(
    pairs: Seq<(Seq<char>, Seq<char>)>,
    key: Seq<char>,
    from: int,
)
    requires
        0 <= from <= pairs.len(),
    ensures
        from <= key_index_from(pairs, key, from) <= pairs.len(),
        key_index_from(pairs, key, from) < pairs.len() ==> pairs[key_index_from(
            pairs,
            key,
            from,
        )].0 == key,
        forall|j: int| from <= j < key_index_from(pairs, key, from) ==> pairs[j].0 != key,
    decreases pairs.len() - from,
{
    if from < pairs.len() && pairs[from].0 != key {
        lemma_key_index_from_bounds(pairs, key, from + 1);
    }
}

/// Setting a key keeps the keys distinct, gives the key its new value and
/// leaves every other key's value as it was.
pub proof fn lemma_upsert(
    pairs: Seq<(Seq<char>, Seq<char>)>,
    key: Seq<char>,
    value: Seq<char>,
    other: Seq<char>,
)
    requires
        distinct_keys(pairs),
    ensures
        distinct_keys(upsert(pairs, key, value)),
        lookup(upsert(pairs, key, value), key) == Some(value),
        other != key ==> lookup(upsert(pairs, key, value), other) == lookup(pairs, other),
{
    let next = upsert(pairs, key, value);
    lemma_key_index_from_bounds(pairs, key, 0);
    lemma_key_index_from_bounds(pairs, other, 0);
    lemma_key_index_from_bounds(next, key, 0);
    lemma_key_index_from_bounds(next, other, 0);
    let i = key_index(pairs, key);
    if has_key(pairs, key) {
        assert(next[i].0 == key);
        assert forall|a: int| 0 <= a < next.len() implies next[a].0 == pairs[a].0 by {}
    } else {
        assert(next[pairs.len() as int].0 == key);
        assert forall|a: int| 0 <= a < pairs.len() implies next[a] == pairs[a] by {}
    }
    if other != key {
        let k = key_index(pairs, other);
        if k < pairs.len() {
            assert(next[k].0 == other);
            assert(next[k] == pairs[k]);
        } else {
            let m = key_index(next, other);
            if m < next.len() {
                if m < pairs.len() {
                    assert(pairs[m].0 == next[m].0);
                }
            }
        }
    }
}

/// The list that `last_wins` builds has no key twice.
pub proof fn lemma_last_wins_distinct(pairs: Seq<(Seq<char>, Seq<char>)>)
    ensures
        distinct_keys(last_wins(pairs)),
    decreases pairs.len(),
{
    if pairs.len() > 0 {
        lemma_last_wins_distinct(pairs.drop_last());
        lemma_upsert(last_wins(pairs.drop_last()), pairs.last().0, pairs.last().1, pairs.last().0);
    }
}

/// A key without `=`, a `=` and a value are the piece of that key and value.
pub proof fn lemma_pair_of(key: Seq<char>, value: Seq<char>)
    requires
        forall|i: int| 0 <= i < key.len() ==> key[i] != '=',
    ensures
        pair_of(key + seq!['='] + value) == Some((key, value)),
{
    let piece = key + seq!['='] + value;
    assert(piece[key.len() as int] == '=');
    assert forall|j: int| 0 <= j < key.len() implies piece[j] != '=' by {
        assert(piece[j] == key[j]);
    }
    lemma_first_index_unique(piece, '=', key.len() as int);
    assert(piece.take(key.len() as int) =~= key);
    assert(piece.skip(key.len() as int + 1) =~= value);
}

/// The index of the last pair whose key is `key`, or `-1` where there is none.
pub open spec fn last_key_index(pairs: Seq<(Seq<char>, Seq<char>)>, key: Seq<char>) -> int
    decreases pairs.len(),
{
    if pairs.len() == 0 {
        -1
    } else if pairs.last().0 == key {
        pairs.len() - 1
    } else {
        last_key_index(pairs.drop_last(), key)
    }
}

pub proof fn lemma_last_key_index_bounds(pairs: Seq<(Seq<char>, Seq<char>)>, key: Seq<char>)
    ensures
        -1 <= last_key_index(pairs, key) < pairs.len(),
        last_key_index(pairs, key) >= 0 ==> pairs[last_key_index(pairs, key)].0 == key,
        forall|j: int| last_key_index(pairs, key) < j < pairs.len() ==> pairs[j].0 != key,
    decreases pairs.len(),
{
    if pairs.len() > 0 && pairs.last().0 != key {
        lemma_last_key_index_bounds(pairs.drop_last(), key);
        assert forall|j: int| last_key_index(pairs, key) < j < pairs.len() implies pairs[j].0
            != key by {
            if j < pairs.len() - 1 {
                assert(pairs.drop_last()[j] == pairs[j]);
            }
        }
    }
}

/// Of the pairs with one key the last gives the value: in the list that
/// `last_wins` builds, a key has the value of the last pair of `pairs` with
/// that key, and a key that no pair of `pairs` has is not there.
pub proof fn lemma_last_wins_lookup(pairs: Seq<(Seq<char>, Seq<char>)>, key: Seq<char>)
    ensures
        lookup(last_wins(pairs), key) == if last_key_index(pairs, key) >= 0 {
            Some(pairs[last_key_index(pairs, key)].1)
        } else {
            None
        },
    decreases pairs.len(),
{
    if pairs.len() > 0 {
        let init = pairs.drop_last();
        lemma_last_wins_lookup(init, key);
        lemma_last_wins_distinct(init);
        lemma_upsert(last_wins(init), pairs.last().0, pairs.last().1, key);
        lemma_last_key_index_bounds(init, key);
        if pairs.last().0 != key && last_key_index(init, key) >= 0 {
            assert(init[last_key_index(init, key)] == pairs[last_key_index(init, key)]);
        }
    } else {
        lemma_key_index_from_bounds(last_wins(pairs), key, 0);
    }
}

/// The index of the first pair with the key `key`, or the length.
pub fn find_key(pairs: &Vec<(String, String)>, key: &str) -> (i: usize)
    ensures
        i == key_index(pairs.deep_view(), key@),
        i <= pairs@.len(),
{
    let ghost model = pairs.deep_view();
    let owned = String::from_str(key);
    let mut i: usize = 0;
    while i < pairs.len()
        invariant
            i <= pairs@.len(),
            model == pairs.deep_view(),
            owned@ == key@,
            key_index(model, key@) == key_index_from(model, key@, i as int),
        decreases pairs@.len() - i,
    {
        assert(model[i as int].0 == pairs@[i as int].0@);
        if pairs[i].0 == owned {
            return i;
        }
        i = i + 1;
    }
    i
}

/// The value under `key`, if the key is there.
pub fn get_value(pairs: &Vec<(String, String)>, key: &str) -> (value: Option<String>)
    ensures
        value.deep_view() == lookup(pairs.deep_view(), key@),
{
    let i = find_key(pairs, key);
    if i < pairs.len() {
        assert(pairs.deep_view()[i as int].1 == pairs@[i as int].1@);
        Some(pairs[i].1.clone())
    } else {
        None
    }
}

/// Sets `key` to `value`: in place where the key is there, at the end where
/// it is new.
pub fn set_value(pairs: &mut Vec<(String, String)>, key: String, value: String)
    ensures
        final(pairs).deep_view() == upsert(old(pairs).deep_view(), key@, value@),
{
    let i = find_key(pairs, key.as_str());
    if i < pairs.len() {
        pairs.set(i, (key, value));
    } else {
        pairs.push((key, value));
    }
    assert(pairs.deep_view() =~= upsert(old(pairs).deep_view(), key@, value@));
}

/// The list in which each key of `pairs` has its last value.
pub fn keep_last(pairs: Vec<(String, String)>) -> (out: Vec<(String, String)>)
    ensures
        out.deep_view() == last_wins(pairs.deep_view()),
        distinct_keys(out.deep_view()),
{
    let ghost model = pairs.deep_view();
    let mut out: Vec<(String, String)> = Vec::new();
    let mut i: usize = 0;
    assert(model.take(0) =~= Seq::empty());
    assert(out.deep_view() =~= Seq::empty());
    while i < pairs.len()
        invariant
            i <= pairs@.len(),
            model == pairs.deep_view(),
            out.deep_view() == last_wins(model.take(i as int)),
        decreases pairs@.len() - i,
    {
        let key = pairs[i].0.clone();
        let value = pairs[i].1.clone();
        proof {
            let upto = model.take(i + 1);
            assert(upto.drop_last() == model.take(i as int));
            assert(upto.last() == model[i as int]);
            assert(model[i as int] == (key@, value@));
        }
        set_value(&mut out, key, value);
        i = i + 1;
    }
    proof {
        assert(model.take(i as int) == model);
        lemma_last_wins_distinct(model);
    }
    out
}

/// The key and value of one `k=v` piece, if it holds a `=`.
pub fn parse_pair(piece: &str) -> (pair: Option<(String, String)>)
    ensures
        pair.deep_view() == pair_of(piece@),
{
    let chars = chars_of(piece);
    let eq = find_from(&chars, '=', 0);
    if eq >= chars.len() {
        return None;
    }
    let key = String::from_str(piece.substring_char(0, eq));
    let value = String::from_str(piece.substring_char(eq + 1, chars.len()));
    Some((key, value))
}

/// The key/value list of a raw query string.
pub fn parse_query_pairs(raw: &str) -> (out: Vec<(String, String)>)
    ensures
        out.deep_view() == query_pairs(raw@),
        distinct_keys(out.deep_view()),
{
    let pieces = split_on(raw, '&');
    let ghost model = views(pieces@);
    let mut found: Vec<(String, String)> = Vec::new();
    let mut i: usize = 0;
    assert(model.take(0) =~= Seq::empty());
    assert(found.deep_view() =~= Seq::empty());
    while i < pieces.len()
        invariant
            i <= pieces@.len(),
            model == views(pieces@),
            found.deep_view() == pairs_of(model.take(i as int)),
        decreases pieces@.len() - i,
    {
        let ghost before = found.deep_view();
        proof {
            let upto = model.take(i + 1);
            assert(upto.drop_last() == model.take(i as int));
            assert(upto.last() == pieces@[i as int]@);
        }
        match parse_pair(pieces[i].as_str()) {
            Some(pair) => {
                let ghost p = (pair.0@, pair.1@);
                found.push(pair);
                assert(found.deep_view() =~= before.push(p));
            },
            None => {},
        }
        i = i + 1;
    }
    assert(model.take(i as int) == model);
    keep_last(found)
}

} // verus!
