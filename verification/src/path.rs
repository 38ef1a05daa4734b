//! The request path: percent-decoding, and the function name and inline
//! parameters that its final segment holds.

use vstd::prelude::*;
use crate::text::{
    after_first, after_last, before_first, cut, find_in, find_tail_start, first_index,
    lemma_first_index_exists, lemma_tail_start_exists, opt_text, tail_start, to_chars,
};

verus! {

/// The value of a base-16 digit, for the characters that are one.
pub open spec fn hex_digit(c: char) -> Option<nat> {
    if '0' <= c <= '9' {
        Some((c as u32 - '0' as u32) as nat)
    } else if 'a' <= c <= 'f' {
        Some((c as u32 - 'a' as u32 + 10) as nat)
    } else if 'A' <= c <= 'F' {
        Some((c as u32 - 'A' as u32 + 10) as nat)
    } else {
        None
    }
}

/// The byte that the two characters after a `%` stand for, if any: two
/// base-16 digits, or a `+` sign and one base-16 digit.
pub open spec fn escape_byte(hi: char, lo: char) -> Option<nat> {
    if hi == '+' {
        hex_digit(lo)
    } else {
        match (hex_digit(hi), hex_digit(lo)) {
            (Some(h), Some(l)) => Some(16 * h + l),
            _ => None,
        }
    }
}

/// Whether `url` can be percent-decoded: it is ASCII throughout, and each
/// `%`, read from the left, is followed by two characters that stand for
/// a byte.
pub open spec fn percent_decodable(url: Seq<char>) -> bool
    decreases url.len(),
{
    if url.len() == 0 {
        true
    } else if url[0] == '%' {
        &&& url.len() >= 3
        &&& escape_byte(url[1], url[2]) is Some
        &&& percent_decodable(url.skip(3))
    } else {
        &&& (url[0] as u32) < 128
        &&& percent_decodable(url.skip(1))
    }
}

/// `url` with each `%` and the two characters after it replaced by the
/// character whose code point is the byte they stand for.
pub open spec fn percent_decoded(url: Seq<char>) -> Seq<char>
    decreases url.len(),
{
    if url.len() == 0 {
        url
    } else if url[0] == '%' && url.len() >= 3 && escape_byte(url[1], url[2]) is Some {
        seq![(escape_byte(url[1], url[2])->0 as u8) as char] + percent_decoded(url.skip(3))
    } else {
        seq![url[0]] + percent_decoded(url.skip(1))
    }
}

/// The function name in a decoded path: its final `/`-delimited segment,
/// up to the first `?`.
pub open spec fn function_name(path: Seq<char>) -> Seq<char> {
    before_first(after_last(path, '/'), '?')
}

/// The inline parameters in a decoded path: what follows the first `?` of
/// its final `/`-delimited segment, if there is a `?`.
pub open spec fn inline_params(path: Seq<char>) -> Option<Seq<char>> {
    after_first(after_last(path, '/'), '?')
}

/// The function name holds neither `/` nor `?`, and the final segment of
/// the path is the function name, followed by `?` and the inline parameters
/// where there are any.
pub proof fn law_final_segment(path: Seq<char>)
    ensures
        !function_name(path).contains('/'),
        !function_name(path).contains('?'),
        !after_last(path, '/').contains('/'),
        after_last(path, '/') == match inline_params(path) {
            Some(params) => function_name(path) + seq!['?'] + params,
            None => function_name(path),
        },
{
    let segment = after_last(path, '/');
    lemma_tail_start_exists(path, '/');
    lemma_first_index_exists(segment, '?');
    assert forall|i: int| 0 <= i < segment.len() implies segment[i] != '/' by {}
    assert forall|i: int| 0 <= i < function_name(path).len() implies function_name(path)[i] != '/'
        && function_name(path)[i] != '?' by {}
}

/// Text that is ASCII and holds no `%` can be decoded, and decodes to
/// itself.
pub proof fn law_plain_text_decodes_to_itself(url: Seq<char>)
    requires
        forall|i: int| 0 <= i < url.len() ==> (#[trigger] url[i] as u32) < 128 && url[i] != '%',
    ensures
        percent_decodable(url),
        percent_decoded(url) == url,
    decreases url.len(),
{
    if url.len() > 0 {
        let rest = url.skip(1);
        assert forall|i: int| 0 <= i < rest.len() implies (#[trigger] rest[i] as u32) < 128
            && rest[i] != '%' by {}
        law_plain_text_decodes_to_itself(rest);
    }
}

/// Text that was decoded holds no character with a code point of 256 or
/// more.
pub proof fn law_decoded_characters(url: Seq<char>, i: int)
    requires
        percent_decodable(url),
        0 <= i < percent_decoded(url).len(),
    ensures
        (percent_decoded(url)[i] as u32) < 256,
    decreases url.len(),
{
    if url[0] == '%' {
        if i > 0 {
            law_decoded_characters(url.skip(3), i - 1);
        }
    } else {
        if i > 0 {
            law_decoded_characters(url.skip(1), i - 1);
        }
    }
}

/// `urldecode::decode` walks the text from the left and replaces each `%`
/// and the two characters after it by the character whose code point is the
/// byte that the two stand for in base 16. It panics on text that is not
/// ASCII, on a `%` with fewer than two characters after it, and where the
/// two do not stand for a byte; the precondition leaves those inputs out.
pub assume_specification[ urldecode::decode ](url: String) -> (decoded: String)
    requires
        percent_decodable(url@),
    ensures
        decoded@ == percent_decoded(url@),
;

fn hex_value(c: char) -> (v: Option<u8>)
    ensures
        match v {
            Some(x) => hex_digit(c) == Some(x as nat),
            None => hex_digit(c) is None,
        },
{
    if '0' <= c && c <= '9' {
        Some((c as u32 - '0' as u32) as u8)
    } else if 'a' <= c && c <= 'f' {
        Some((c as u32 - 'a' as u32 + 10) as u8)
    } else if 'A' <= c && c <= 'F' {
        Some((c as u32 - 'A' as u32 + 10) as u8)
    } else {
        None
    }
}

fn is_escape(hi: char, lo: char) -> (valid: bool)
    ensures
        valid == escape_byte(hi, lo) is Some,
{
    if hi == '+' {
        hex_value(lo).is_some()
    } else {
        hex_value(hi).is_some() && hex_value(lo).is_some()
    }
}

/// Whether `url` can be percent-decoded.
pub fn is_percent_decodable(url: &str) -> (decodable: bool)
    ensures
        decodable == percent_decodable(url@),
{
    let chars = to_chars(url);
    let mut i: usize = 0;
    assert(chars@.skip(0) == chars@);
    while i < chars.len()
        invariant
            chars@ == url@,
            i <= chars.len(),
            percent_decodable(chars@) == percent_decodable(chars@.skip(i as int)),
        decreases chars.len() - i,
    {
        let ghost rest = chars@.skip(i as int);
        if chars[i] == '%' {
            if chars.len() - i < 3 {
                return false;
            }
            if !is_escape(chars[i + 1], chars[i + 2]) {
                return false;
            }
            assert(rest.skip(3) == chars@.skip(i + 3));
            i += 3;
        } else {
            if chars[i] as u32 >= 128 {
                return false;
            }
            assert(rest.skip(1) == chars@.skip(i + 1));
            i += 1;
        }
    }
    true
}

/// The percent-decoded form of `path`, or `None` where `path` cannot be
/// decoded.
pub fn decode_path(path: &str) -> (decoded: Option<String>)
    ensures
        opt_text(decoded) == if percent_decodable(path@) {
            Some(percent_decoded(path@))
        } else {
            None
        },
{
    if is_percent_decodable(path) {
        Some(urldecode::decode(path.to_owned()))
    } else {
        None
    }
}

/// The function name and the inline parameters of a decoded path.
pub fn split_path(path: &str) -> (parts: (String, Option<String>))
    ensures
        parts.0@ == function_name(path@),
        opt_text(parts.1) == inline_params(path@),
{
    let chars = to_chars(path);
    let start = find_tail_start(&chars, '/');
    let mark = find_in(&chars, start, chars.len(), '?');
    proof {
        let segment = after_last(path@, '/');
        lemma_tail_start_exists(path@, '/');
        lemma_first_index_exists(segment, '?');
        if mark < chars.len() {
            assert(segment.skip(mark - start + 1) == path@.subrange(
                mark + 1,
                chars.len() as int,
            ));
        }
    }
    let name = cut(path, start, mark);
    let params = if mark < chars.len() {
        Some(cut(path, mark + 1, chars.len()))
    } else {
        None
    };
    (name, params)
}

} // verus!
