//! Searching and cutting character sequences.
//!
//! Every contract here is stated over `Seq<char>`, the view of `str` and
//! `String`. Executable functions take the text together with its characters
//! as a vector where they need random access.

use vstd::prelude::*;
use vstd::string::StringExecFns;

verus! {

/// The least index `i >= from` with `s[i] == c`, or `s.len()` where there is none.
pub open spec fn first_index_from(s: Seq<char>, c: char, from: int) -> int
    decreases s.len() - from,
{
    if from < 0 || from >= s.len() {
        s.len() as int
    } else if s[from] == c {
        from
    } else {
        first_index_from(s, c, from + 1)
    }
}

/// The least index at which `c` stands in `s`, or `s.len()` where it does not occur.
pub open spec fn first_index(s: Seq<char>, c: char) -> int {
    first_index_from(s, c, 0)
}

/// The greatest index at which `c` stands in `s`, or `-1` where it does not occur.
pub open spec fn last_index(s: Seq<char>, c: char) -> int
    decreases s.len(),
{
    if s.len() == 0 {
        -1
    } else if s.last() == c {
        s.len() - 1
    } else {
        last_index(s.drop_last(), c)
    }
}

/// `pat` stands in `s` at index `i`.
pub open spec fn occurs_at(s: Seq<char>, pat: Seq<char>, i: int) -> bool {
    0 <= i && i + pat.len() <= s.len() && s.subrange(i, i + pat.len()) == pat
}

/// `pat` stands somewhere in `s`. The empty pattern stands in every text.
pub open spec fn contains(s: Seq<char>, pat: Seq<char>) -> bool {
    exists|i: int| occurs_at(s, pat, i)
}

/// The length of `s` once every trailing `c` is taken off.
pub open spec fn trimmed_end(s: Seq<char>, c: char) -> int
    decreases s.len(),
{
    if s.len() > 0 && s.last() == c {
        trimmed_end(s.drop_last(), c)
    } else {
        s.len() as int
    }
}

/// The number of leading `c` in `s`.
pub open spec fn leading(s: Seq<char>, c: char) -> int
    decreases s.len(),
{
    if s.len() > 0 && s[0] == c {
        1 + leading(s.skip(1), c)
    } else {
        0
    }
}

/// `s` without its leading and trailing `c`.
pub open spec fn trim(s: Seq<char>, c: char) -> Seq<char> {
    let start = leading(s, c);
    let rest = s.skip(start);
    rest.take(trimmed_end(rest, c))
}

/// The pieces of `s` between occurrences of `sep`, in order. A text without
/// `sep` is one piece, the empty text too.
pub open spec fn split(s: Seq<char>, sep: char) -> Seq<Seq<char>>
    decreases s.len(),
{
    let i = first_index(s, sep);
    if i < 0 || i >= s.len() {
        seq![s]
    } else {
        seq![s.take(i)] + split(s.skip(i + 1), sep)
    }
}

/// The views of a sequence of strings.
pub open spec fn views(v: Seq<String>) -> Seq<Seq<char>> {
    Seq::new(v.len(), |i: int| v[i]@)
}

pub proof fn lemma_first_index_from_bounds(s: Seq<char>, c: char, from: int)
    requires
        0 <= from <= s.len(),
    ensures
        from <= first_index_from(s, c, from) <= s.len(),
        first_index_from(s, c, from) < s.len() ==> s[first_index_from(s, c, from)] == c,
        forall|j: int| from <= j < first_index_from(s, c, from) ==> s[j] != c,
    decreases s.len() - from,
{
    if from < s.len() && s[from] != c {
        lemma_first_index_from_bounds(s, c, from + 1);
    }
}

/// Searching from `from` is searching the text that starts there.
pub proof fn lemma_first_index_skip(s: Seq<char>, c: char, from: int)
    requires
        0 <= from <= s.len(),
    ensures
        first_index(s.skip(from), c) + from == first_index_from(s, c, from),
    decreases s.len() - from,
{
    lemma_first_index_shift(s, c, from, 0);
}

proof fn lemma_first_index_shift(s: Seq<char>, c: char, from: int, k: int)
    requires
        0 <= from <= s.len(),
        0 <= k <= s.len() - from,
    ensures
        first_index_from(s.skip(from), c, k) + from == first_index_from(s, c, from + k),
    decreases s.len() - from - k,
{
    let t = s.skip(from);
    if k < t.len() {
        assert(t[k] == s[from + k]);
        if t[k] != c {
            lemma_first_index_shift(s, c, from, k + 1);
        }
    }
}

/// What comes before the first `c` holds no `c`, so the search there finds none.
pub proof fn lemma_first_index_unique(s: Seq<char>, c: char, i: int)
    requires
        0 <= i <= s.len(),
        forall|j: int| 0 <= j < i ==> s[j] != c,
        i < s.len() ==> s[i] == c,
    ensures
        first_index(s, c) == i,
{
    lemma_first_index_from_bounds(s, c, 0);
}

pub proof fn lemma_last_index_bounds(s: Seq<char>, c: char)
    ensures
        -1 <= last_index(s, c) < s.len(),
        last_index(s, c) >= 0 ==> s[last_index(s, c)] == c,
        forall|j: int| last_index(s, c) < j < s.len() ==> s[j] != c,
    decreases s.len(),
{
    if s.len() > 0 && s.last() != c {
        lemma_last_index_bounds(s.drop_last(), c);
        assert forall|j: int| last_index(s, c) < j < s.len() implies s[j] != c by {
            if j < s.len() - 1 {
                assert(s.drop_last()[j] == s[j]);
            }
        }
    }
}

/// A text that holds no `sep` is one piece.
pub proof fn lemma_split_whole(s: Seq<char>, sep: char)
    requires
        forall|i: int| 0 <= i < s.len() ==> s[i] != sep,
    ensures
        split(s, sep) == seq![s],
{
    lemma_first_index_from_bounds(s, sep, 0);
}

/// A text whose head holds no `sep` and is followed by one: the head is
/// its first piece, the pieces of what follows are the others.
pub proof fn lemma_split_head(head: Seq<char>, sep: char, rest: Seq<char>)
    requires
        forall|i: int| 0 <= i < head.len() ==> head[i] != sep,
    ensures
        split(head + seq![sep] + rest, sep) == seq![head] + split(rest, sep),
{
    let s = head + seq![sep] + rest;
    assert(s[head.len() as int] == sep);
    assert forall|j: int| 0 <= j < head.len() implies s[j] != sep by {
        assert(s[j] == head[j]);
    }
    lemma_first_index_unique(s, sep, head.len() as int);
    assert(s.take(head.len() as int) =~= head);
    assert(s.skip(head.len() as int + 1) =~= rest);
}

/// The characters of `s`, in order.
pub fn chars_of(s: &str) -> (out: Vec<char>)
    ensures
        out@ == s@,
{
    let mut out: Vec<char> = Vec::new();
    for c in it: s.chars()
        invariant
            it.seq() == s@,
            out@ == s@.take(it.index()),
    {
        out.push(c);
    }
    out
}

/// Whether two texts are the same.
pub fn same_text(a: &str, b: &str) -> (same: bool)
    ensures
        same == (a@ == b@),
{
    String::from_str(a) == String::from_str(b)
}

/// The first index from `from` on at which `c` stands, or the length where
/// there is none.
pub fn find_from(chars: &Vec<char>, c: char, from: usize) -> (i: usize)
    requires
        from <= chars@.len(),
    ensures
        i == first_index_from(chars@, c, from as int),
        from <= i <= chars@.len(),
        i < chars@.len() ==> chars@[i as int] == c,
        forall|j: int| from <= j < i ==> chars@[j] != c,
{
    let mut i: usize = from;
    while i < chars.len() && chars[i] != c
        invariant
            from <= i <= chars@.len(),
            first_index_from(chars@, c, from as int) == first_index_from(chars@, c, i as int),
            forall|j: int| from <= j < i ==> chars@[j] != c,
        decreases chars@.len() - i,
    {
        i = i + 1;
    }
    i
}

/// The last index at which `c` stands, if any.
pub fn find_last(chars: &Vec<char>, c: char) -> (found: Option<usize>)
    ensures
        match found {
            Some(i) => i == last_index(chars@, c),
            None => last_index(chars@, c) == -1,
        },
{
    let mut n: usize = chars.len();
    assert(chars@.take(n as int) == chars@);
    while n > 0
        invariant
            n <= chars@.len(),
            last_index(chars@, c) == last_index(chars@.take(n as int), c),
        decreases n,
    {
        if chars[n - 1] == c {
            assert(chars@.take(n as int).last() == c);
            return Some(n - 1);
        }
        assert(chars@.take(n as int).drop_last() == chars@.take(n - 1));
        n = n - 1;
    }
    assert(chars@.take(0).len() == 0);
    None
}

/// Whether `pat` stands in `chars` at index `at`.
fn matches_at(chars: &Vec<char>, pat: &Vec<char>, at: usize) -> (found: bool)
    requires
        at + pat@.len() <= chars@.len(),
    ensures
        found == occurs_at(chars@, pat@, at as int),
{
    let mut k: usize = 0;
    let total: usize = chars.len();
    while k < pat.len()
        invariant
            k <= pat@.len(),
            total == chars@.len(),
            at + pat@.len() <= chars@.len(),
            forall|j: int| 0 <= j < k ==> chars@[at + j] == pat@[j],
        decreases pat@.len() - k,
    {
        if chars[at + k] != pat[k] {
            assert(chars@.subrange(at as int, at + pat@.len())[k as int] != pat@[k as int]);
            return false;
        }
        k = k + 1;
    }
    assert(chars@.subrange(at as int, at + pat@.len()) =~= pat@);
    true
}

/// Whether `pat` stands somewhere in `chars`.
pub fn contains_chars(chars: &Vec<char>, pat: &Vec<char>) -> (found: bool)
    ensures
        found == contains(chars@, pat@),
{
    if pat.len() > chars.len() {
        return false;
    }
    let last: usize = chars.len() - pat.len();
    let mut i: usize = 0;
    loop
        invariant
            i <= last,
            last == chars@.len() - pat@.len(),
            forall|j: int| 0 <= j < i ==> !occurs_at(chars@, pat@, j),
        decreases last - i,
    {
        if matches_at(chars, pat, i) {
            return true;
        }
        if i == last {
            return false;
        }
        i = i + 1;
    }
}

/// The length of `chars` without its trailing `c`.
pub fn trim_end_len(chars: &Vec<char>, c: char) -> (n: usize)
    ensures
        n == trimmed_end(chars@, c),
        n <= chars@.len(),
{
    let mut n: usize = chars.len();
    assert(chars@.take(n as int) == chars@);
    while n > 0 && chars[n - 1] == c
        invariant
            n <= chars@.len(),
            trimmed_end(chars@, c) == trimmed_end(chars@.take(n as int), c),
        decreases n,
    {
        assert(chars@.take(n as int).last() == c);
        assert(chars@.take(n as int).drop_last() == chars@.take(n - 1));
        n = n - 1;
    }
    proof {
        if n > 0 {
            assert(chars@.take(n as int).last() != c);
        }
    }
    n
}

/// `s` without its leading and trailing `c`.
pub fn trim_matches(s: &str, c: char) -> (out: String)
    ensures
        out@ == trim(s@, c),
{
    let chars = chars_of(s);
    let mut start: usize = 0;
    assert(chars@.skip(0) == chars@);
    while start < chars.len() && chars[start] == c
        invariant
            start <= chars@.len(),
            leading(chars@, c) == start + leading(chars@.skip(start as int), c),
        decreases chars@.len() - start,
    {
        assert(chars@.skip(start as int)[0] == c);
        assert(chars@.skip(start as int).skip(1) == chars@.skip(start + 1));
        start = start + 1;
    }
    proof {
        if start < chars@.len() {
            assert(chars@.skip(start as int)[0] != c);
        }
    }
    let mut end: usize = chars.len();
    assert(chars@.skip(start as int) == chars@.subrange(start as int, end as int));
    while end > start && chars[end - 1] == c
        invariant
            start <= end <= chars@.len(),
            trimmed_end(chars@.skip(start as int), c) == trimmed_end(
                chars@.subrange(start as int, end as int),
                c,
            ),
        decreases end,
    {
        let ghost cur = chars@.subrange(start as int, end as int);
        assert(cur.last() == c);
        assert(cur.drop_last() == chars@.subrange(start as int, end - 1));
        end = end - 1;
    }
    proof {
        let cur = chars@.subrange(start as int, end as int);
        if end > start {
            assert(cur.last() != c);
        }
        assert(chars@.skip(start as int).take(end - start) == cur);
    }
    String::from_str(s.substring_char(start, end))
}

/// The pieces of `s` between occurrences of `sep`.
pub fn split_on(s: &str, sep: char) -> (out: Vec<String>)
    ensures
        views(out@) == split(s@, sep),
{
    let chars = chars_of(s);
    let mut out: Vec<String> = Vec::new();
    let mut start: usize = 0;
    assert(s@.skip(0) == s@);
    assert(views(out@) + split(s@, sep) == split(s@, sep));
    loop
        invariant
            chars@ == s@,
            start <= chars@.len(),
            split(s@, sep) == views(out@) + split(s@.skip(start as int), sep),
        decreases chars@.len() - start,
    {
        let stop = find_from(&chars, sep, start);
        let ghost before = views(out@);
        let ghost rest = s@.skip(start as int);
        proof {
            lemma_first_index_skip(s@, sep, start as int);
            assert(rest.take(stop - start) == s@.subrange(start as int, stop as int));
        }
        out.push(String::from_str(s.substring_char(start, stop)));
        assert(views(out@) == before + seq![rest.take(stop - start)]);
        if stop >= chars.len() {
            assert(rest.take(stop - start) == rest);
            return out;
        }
        assert(rest.skip(stop - start + 1) == s@.skip(stop + 1));
        start = stop + 1;
    }
}

} // verus!
