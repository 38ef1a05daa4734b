//! Additional functions

use vstd::prelude::*;
use crate::names::NameMap;
use crate::text::{cut, find_in, first_index, lemma_first_index_exists, opt_text, to_chars};

verus! {

/// The pieces that `sep` cuts `s` into, in order. There is always at
/// least one, and none of them holds `sep`.
pub open spec fn pieces(s: Seq<char>, sep: char) -> Seq<Seq<char>>
    decreases s.len(),
{
    let at = first_index(s, sep);
    if 0 <= at < s.len() {
        seq![s.take(at)] + pieces(s.skip(at + 1), sep)
    } else {
        seq![s]
    }
}

/// The key of one `key=value` piece: what stands before its first `=`.
pub open spec fn param_key(line: Seq<char>) -> Seq<char> {
    line.take(first_index(line, '='))
}

/// The value of one `key=value` piece: what stands between its first and
/// its second `=`, and no value where that is empty or there is no `=`.
pub open spec fn param_value(line: Seq<char>) -> Option<Seq<char>> {
    let at = first_index(line, '=');
    if 0 <= at < line.len() {
        let rest = line.skip(at + 1);
        let value = rest.take(first_index(rest, '='));
        if value.len() == 0 {
            None
        } else {
            Some(value)
        }
    } else {
        None
    }
}

/// The parameters that `lines` give, a later line replacing an earlier
/// one with the same key.
pub open spec fn params_of(lines: Seq<Seq<char>>) -> Map<Seq<char>, Option<Seq<char>>>
    decreases lines.len(),
{
    if lines.len() == 0 {
        Map::empty()
    } else {
        params_of(lines.drop_last()).insert(param_key(lines.last()), param_value(lines.last()))
    }
}

/// The parameters in a query string: its `&`-separated pieces, each read as
/// `key=value`.
pub open spec fn get_params(input: Seq<char>) -> Map<Seq<char>, Option<Seq<char>>> {
    params_of(pieces(input, '&'))
}

/// `parts`, with `sep` between each two of them.
pub open spec fn joined(parts: Seq<Seq<char>>, sep: char) -> Seq<char>
    decreases parts.len(),
{
    if parts.len() == 0 {
        Seq::empty()
    } else if parts.len() == 1 {
        parts[0]
    } else {
        parts[0] + seq![sep] + joined(parts.skip(1), sep)
    }
}

/// Cutting a text into pieces loses nothing but the separators: there is
/// at least one piece, no piece holds the separator, and the pieces, with
/// the separator between each two of them, are the text.
pub proof fn law_pieces(s: Seq<char>, sep: char)
    ensures
        pieces(s, sep).len() >= 1,
        forall|i: int|
            0 <= i < pieces(s, sep).len() ==> !(#[trigger] pieces(s, sep)[i]).contains(sep),
        joined(pieces(s, sep), sep) == s,
    decreases s.len(),
{
    lemma_first_index_exists(s, sep);
    let at = first_index(s, sep);
    if 0 <= at < s.len() {
        let rest = s.skip(at + 1);
        law_pieces(rest, sep);
        let parts = pieces(s, sep);
        assert(parts.skip(1) == pieces(rest, sep));
        assert forall|i: int| 0 <= i < parts.len() implies !(#[trigger] parts[i]).contains(sep) by {
            if i > 0 {
                assert(parts[i] == pieces(rest, sep)[i - 1]);
            }
        }
        assert(s.take(at) + seq![sep] + rest == s);
    }
}

/// A key is among the parameters exactly if some line has it, and its
/// value is then that of the last line that has it.
pub proof fn law_params_of(lines: Seq<Seq<char>>, key: Seq<char>)
    ensures
        params_of(lines).contains_key(key) <==> exists|i: int|
            0 <= i < lines.len() && param_key(#[trigger] lines[i]) == key,
        forall|i: int|
            0 <= i < lines.len() && param_key(#[trigger] lines[i]) == key && (forall|j: int|
                i < j < lines.len() ==> param_key(#[trigger] lines[j]) != key) ==> params_of(
                lines,
            )[key] == param_value(lines[i]),
    decreases lines.len(),
{
    if lines.len() > 0 {
        let front = lines.drop_last();
        law_params_of(front, key);
        assert forall|i: int| 0 <= i < front.len() implies front[i] == lines[i] by {}
        if param_key(lines.last()) != key && params_of(front).contains_key(key) {
            let i = choose|i: int| 0 <= i < front.len() && param_key(#[trigger] front[i]) == key;
            assert(param_key(lines[i]) == key);
        }
        assert forall|i: int|
            0 <= i < lines.len() && param_key(#[trigger] lines[i]) == key && (forall|j: int|
                i < j < lines.len() ==> param_key(#[trigger] lines[j]) != key) implies params_of(
            lines,
        )[key] == param_value(lines[i]) by {
            if i < lines.len() - 1 {
                assert forall|j: int| i < j < front.len() implies param_key(#[trigger] front[j])
                    != key by {
                    assert(front[j] == lines[j]);
                }
            }
        }
    }
}

/// The text of a parameter map.
pub open spec fn param_texts(params: Map<Seq<char>, Option<String>>) -> Map<
    Seq<char>,
    Option<Seq<char>>,
> {
    Map::new(|key: Seq<char>| params.contains_key(key), |key: Seq<char>| opt_text(params[key]))
}

/// Parse GET-parameters from url
pub fn parse_get_params(input_str: &str) -> (params: NameMap<Option<String>>)
    ensures
        params.wf(),
        param_texts(params@) == get_params(input_str@),
{
    let chars = to_chars(input_str);
    let mut params: NameMap<Option<String>> = NameMap::new();
    let mut start: usize = 0;
    let ghost mut done: Seq<Seq<char>> = Seq::empty();
    assert(chars@.skip(0) == chars@);
    loop
        invariant_except_break
            done + pieces(chars@.skip(start as int), '&') == pieces(chars@, '&'),
        invariant
            chars@ == input_str@,
            start <= chars.len(),
            params.wf(),
            param_texts(params@) == params_of(done),
        ensures
            done == pieces(chars@, '&'),
        decreases chars.len() - start,
    {
        let end = find_in(&chars, start, chars.len(), '&');
        let mark = find_in(&chars, start, end, '=');
        let key = cut(input_str, start, mark);
        let value = if mark < end {
            let stop = find_in(&chars, mark + 1, end, '=');
            if mark + 1 < stop {
                Some(cut(input_str, mark + 1, stop))
            } else {
                None
            }
        } else {
            None
        };
        let ghost rest = chars@.skip(start as int);
        let ghost line = chars@.subrange(start as int, end as int);
        proof {
            lemma_first_index_exists(rest, '&');
            lemma_first_index_exists(line, '=');
            assert(rest.take(end - start) == line);
            assert(key@ == param_key(line));
            if mark < end {
                let tail = line.skip(mark - start + 1);
                assert(tail == chars@.subrange(mark + 1, end as int));
                lemma_first_index_exists(tail, '=');
            }
            assert(opt_text(value) == param_value(line));
            let ghost grown = done.push(line);
            assert(grown.drop_last() == done);
            if end < chars.len() {
                assert(rest.skip(end - start + 1) == chars@.skip(end + 1));
                assert(grown + pieces(chars@.skip(end + 1), '&') == done + (seq![line] + pieces(
                    chars@.skip(end + 1),
                    '&',
                )));
            }
            done = grown;
        }
        params.insert(key, value);
        if end == chars.len() {
            break;
        }
        start = end + 1;
    }
    params
}

} // verus!
