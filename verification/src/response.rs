//! The wire form of a response: status line, content length, content type,
//! a blank line and the body.

use vstd::prelude::*;
use vstd::string::StringExecFns;
use vstd::utf8::encode_utf8;
use crate::status::HttpStatus;
use crate::text::opt_text;

verus! {

/// The character for a decimal digit.
pub open spec fn digit_char(digit: nat) -> char {
    (('0' as u32) + digit) as char
}

/// `n` in decimal, without leading zeros.
pub open spec fn decimal(n: nat) -> Seq<char>
    decreases n,
{
    if n < 10 {
        seq![digit_char(n)]
    } else {
        decimal(n / 10).push(digit_char(n % 10))
    }
}

/// The number that a text of decimal digits stands for.
pub open spec fn decimal_value(digits: Seq<char>) -> nat
    decreases digits.len(),
{
    if digits.len() == 0 {
        0
    } else {
        (10 * decimal_value(digits.drop_last()) + (digits.last() as u32 - '0' as u32)) as nat
    }
}

/// The decimal form of a number is made of digits, stands for that number,
/// and starts with `0` only where the number is 0.
pub proof fn law_decimal(n: nat)
    ensures
        decimal(n).len() >= 1,
        forall|i: int| 0 <= i < decimal(n).len() ==> '0' <= #[trigger] decimal(n)[i] <= '9',
        decimal_value(decimal(n)) == n,
        decimal(n)[0] == '0' <==> n == 0,
    decreases n,
{
    assert(digit_char(n % 10) as u32 == '0' as u32 + n % 10);
    if n >= 10 {
        law_decimal(n / 10);
        let front = decimal(n / 10);
        assert(decimal(n).drop_last() == front);
        assert forall|i: int| 0 <= i < decimal(n).len() implies '0' <= #[trigger] decimal(n)[i]
            <= '9' by {
            if i < front.len() {
                assert(decimal(n)[i] == front[i]);
            }
        }
    } else {
        assert(decimal_value(decimal(n).drop_last()) == 0);
    }
}

/// The text that a response carries: nothing where there is no content.
pub open spec fn content_text(content: Option<Seq<char>>) -> Seq<char> {
    match content {
        Some(text) => text,
        None => Seq::empty(),
    }
}

/// The response for a status and an optional content: the status line,
/// the length of the content in bytes, the fixed content type, a blank line
/// and the content.
pub open spec fn response(status: HttpStatus, content: Option<Seq<char>>) -> Seq<char> {
    status.status_line() + "\r\nContent-Length: "@ + decimal(
        encode_utf8(content_text(content)).len(),
    ) + "\r\nContent-type: application/json; charset=utf-8\r\n\r\n"@ + content_text(content)
}

fn digit_text(digit: usize) -> (text: &'static str)
    requires
        digit < 10,
    ensures
        text@ == seq![digit_char(digit as nat)],
{
    proof {
        reveal_strlit("0");
        reveal_strlit("1");
        reveal_strlit("2");
        reveal_strlit("3");
        reveal_strlit("4");
        reveal_strlit("5");
        reveal_strlit("6");
        reveal_strlit("7");
        reveal_strlit("8");
        reveal_strlit("9");
    }
    match digit {
        0 => "0",
        1 => "1",
        2 => "2",
        3 => "3",
        4 => "4",
        5 => "5",
        6 => "6",
        7 => "7",
        8 => "8",
        _ => "9",
    }
}

/// `n` in decimal.
pub fn decimal_text(n: usize) -> (text: String)
    ensures
        text@ == decimal(n as nat),
    decreases n,
{
    if n < 10 {
        digit_text(n).to_owned()
    } else {
        let mut text = decimal_text(n / 10);
        text.append(digit_text(n % 10));
        text
    }
}

/// Renders the response for a status and an optional content.
pub fn render_response(status_line: HttpStatus, content: Option<String>) -> (rendered: String)
    ensures
        rendered@ == response(status_line, opt_text(content)),
{
    let content = match content {
        Some(text) => text,
        None => String::new(),
    };
    let mut rendered = status_line.get_string();
    rendered.append("\r\nContent-Length: ");
    rendered.append(decimal_text(content.as_str().as_bytes().len()).as_str());
    rendered.append("\r\nContent-type: application/json; charset=utf-8\r\n\r\n");
    rendered.append(content.as_str());
    rendered
}

} // verus!
