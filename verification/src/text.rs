//! Text as sequences of characters: searching for a delimiter, cutting out
//! a range, comparing.

use vstd::prelude::*;
use vstd::string::StrSliceExecFns;
use vstd::utf8::{encode_utf8, encode_utf8_decode_utf8};

verus! {

/// `i` is where `c` first occurs in `s`, or the length of `s` when `c` does
/// not occur in it.
pub open spec fn is_first_index(s: Seq<char>, c: char, i: int) -> bool {
    &&& 0 <= i <= s.len()
    &&& i < s.len() ==> s[i] == c
    &&& forall|j: int| 0 <= j < i ==> s[j] != c
}

/// Where `c` first occurs in `s`; the length of `s` when it does not occur.
pub open spec fn first_index(s: Seq<char>, c: char) -> int {
    choose|i: int| is_first_index(s, c, i)
}

/// The part of `s` before the first `c`; all of `s` when `c` does not occur.
pub open spec fn before_first(s: Seq<char>, c: char) -> Seq<char> {
    s.take(first_index(s, c))
}

/// The part of `s` after the first `c`, if `c` occurs.
pub open spec fn after_first(s: Seq<char>, c: char) -> Option<Seq<char>> {
    if first_index(s, c) < s.len() {
        Some(s.skip(first_index(s, c) + 1))
    } else {
        None
    }
}

/// `i` is where the part of `s` after its last `c` starts: 0 when `c` does
/// not occur in `s`.
pub open spec fn is_tail_start(s: Seq<char>, c: char, i: int) -> bool {
    &&& 0 <= i <= s.len()
    &&& i > 0 ==> s[i - 1] == c
    &&& forall|j: int| i <= j < s.len() ==> s[j] != c
}

/// Where the part of `s` after its last `c` starts.
pub open spec fn tail_start(s: Seq<char>, c: char) -> int {
    choose|i: int| is_tail_start(s, c, i)
}

/// The part of `s` after the last `c`; all of `s` when `c` does not occur.
pub open spec fn after_last(s: Seq<char>, c: char) -> Seq<char> {
    s.skip(tail_start(s, c))
}

/// The text of an optional string.
pub open spec fn opt_text(s: Option<String>) -> Option<Seq<char>> {
    match s {
        Some(t) => Some(t@),
        None => None,
    }
}

/// The text of an optional string slice.
pub open spec fn opt_str_text(s: Option<&str>) -> Option<Seq<char>> {
    match s {
        Some(t) => Some(t@),
        None => None,
    }
}

/// At most one index is the first occurrence of `c` in `s`, and it is
/// `first_index(s, c)`.
pub proof fn lemma_first_index_is(s: Seq<char>, c: char, i: int)
    requires
        is_first_index(s, c, i),
    ensures
        first_index(s, c) == i,
{
}

/// Every text has a first index of `c`.
pub proof fn lemma_first_index_exists(s: Seq<char>, c: char)
    ensures
        is_first_index(s, c, first_index(s, c)),
    decreases s.len(),
{
    if s.len() == 0 {
        assert(is_first_index(s, c, 0));
    } else if s[0] == c {
        assert(is_first_index(s, c, 0));
    } else {
        let rest = s.skip(1);
        lemma_first_index_exists(rest, c);
        let k = first_index(rest, c);
        assert forall|j: int| 0 <= j < k + 1 implies s[j] != c by {
            if j > 0 {
                assert(rest[j - 1] == s[j]);
            }
        }
        assert(is_first_index(s, c, k + 1));
    }
}

/// At most one index is the start of the part after the last `c`, and it
/// is `tail_start(s, c)`.
pub proof fn lemma_tail_start_is(s: Seq<char>, c: char, i: int)
    requires
        is_tail_start(s, c, i),
    ensures
        tail_start(s, c) == i,
{
}

/// Every text has a start of the part after its last `c`.
pub proof fn lemma_tail_start_exists(s: Seq<char>, c: char)
    ensures
        is_tail_start(s, c, tail_start(s, c)),
    decreases s.len(),
{
    if s.len() == 0 {
        assert(is_tail_start(s, c, 0));
    } else if s.last() == c {
        assert(is_tail_start(s, c, s.len() as int));
    } else {
        let front = s.drop_last();
        lemma_tail_start_exists(front, c);
        let k = tail_start(front, c);
        assert forall|j: int| k <= j < s.len() implies s[j] != c by {
            if j < front.len() {
                assert(front[j] == s[j]);
            }
        }
        assert(is_tail_start(s, c, k));
    }
}

/// The characters of a string slice, in order.
pub fn to_chars(s: &str) -> (chars: Vec<char>)
    ensures
        chars@ == s@,
{
    broadcast use vstd::string::group_string_axioms;

    let mut chars: Vec<char> = Vec::new();
    for c in it: s.chars()
        invariant
            it.seq() == s@,
            chars@ == s@.take(it.index()),
    {
        chars.push(c);
    }
    chars
}

/// Where `c` first occurs in `chars` between index `from` and index `to`;
/// `to` when it does not occur there.
pub fn find_in(chars: &Vec<char>, from: usize, to: usize, c: char) -> (at: usize)
    requires
        from <= to <= chars.len(),
    ensures
        from <= at <= to,
        at - from == first_index(chars@.subrange(from as int, to as int), c),
{
    let mut at: usize = from;
    while at < to && chars[at] != c
        invariant
            from <= at <= to <= chars.len(),
            forall|j: int| from <= j < at ==> chars@[j] != c,
        decreases to - at,
    {
        at += 1;
    }
    proof {
        lemma_first_index_is(chars@.subrange(from as int, to as int), c, at - from);
    }
    at
}

/// Where the part of `chars` after its last `c` starts.
pub fn find_tail_start(chars: &Vec<char>, c: char) -> (at: usize)
    ensures
        at <= chars.len(),
        at == tail_start(chars@, c),
{
    let mut at: usize = chars.len();
    while at > 0 && chars[at - 1] != c
        invariant
            at <= chars.len(),
            forall|j: int| at <= j < chars.len() ==> chars@[j] != c,
        decreases at,
    {
        at -= 1;
    }
    proof {
        lemma_tail_start_is(chars@, c, at as int);
    }
    at
}

/// The characters of `s` from index `from` up to, not including, index `to`,
/// as a string of their own.
pub fn cut(s: &str, from: usize, to: usize) -> (part: String)
    requires
        from <= to <= s@.len(),
    ensures
        part@ == s@.subrange(from as int, to as int),
{
    s.substring_char(from, to).to_owned()
}

/// Whether two string slices hold the same text.
pub fn same_text(a: &str, b: &str) -> (same: bool)
    ensures
        same == (a@ == b@),
{
    let x = a.as_bytes();
    let y = b.as_bytes();
    proof {
        encode_utf8_decode_utf8(a@);
        encode_utf8_decode_utf8(b@);
    }
    if x.len() != y.len() {
        return false;
    }
    let mut i: usize = 0;
    while i < x.len()
        invariant
            x@ == encode_utf8(a@),
            y@ == encode_utf8(b@),
            x@.len() == y@.len(),
            i <= x@.len(),
            forall|j: int| 0 <= j < i ==> x@[j] == y@[j],
        decreases x.len() - i,
    {
        if x[i] != y[i] {
            return false;
        }
        i += 1;
    }
    assert(x@ =~= y@);
    true
}

} // verus!
