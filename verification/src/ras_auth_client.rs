//! Tools for implementation of identification and authentication.

use vstd::prelude::*;
use vstd::utf8::{decode_utf8, encode_utf8_decode_utf8, valid_utf8};
use crate::text::{cut, opt_text, to_chars};

verus! {

/// How long a token lives where nothing else is said, in milliseconds.
pub const TOKEN_LIFE_TIME: u128 = 30_000;

/// The number of zero bytes that stand in for a signature that is no
/// base64.
pub const BLANK_SIGNATURE_SIZE: usize = 256;

/// A point in time, `std::time::SystemTime`.
#[verifier::external_type_specification]
#[verifier::external_body]
pub struct ExSystemTime(std::time::SystemTime);

/// Why one point in time is not later than another,
/// `std::time::SystemTimeError`.
#[verifier::external_type_specification]
#[verifier::external_body]
pub struct ExSystemTimeError(std::time::SystemTimeError);

/// `SystemTime::now` reads the system clock: nothing is known of the time
/// it returns.
pub assume_specification[ std::time::SystemTime::now ]() -> std::time::SystemTime;

/// `SystemTime::duration_since`, with the Unix epoch as the earlier time:
/// the time elapsed since the epoch, or an error where `time` lies before
/// it. Nothing is stated of either.
#[verifier::external_body]
fn since_epoch(time: &std::time::SystemTime) -> Result<
    core::time::Duration,
    std::time::SystemTimeError,
> {
    time.duration_since(std::time::UNIX_EPOCH)
}

/// `Duration::as_millis` gives the whole milliseconds in a duration.
/// Nothing is stated of their number.
pub assume_specification[ core::time::Duration::as_millis ](
    duration: &core::time::Duration,
) -> u128;

/// User data
///
/// User role is a bitmask, where
///
/// 0000 0001 - Service,
///
/// 0000 0010 - Administrator
///
/// **** **00 - 7 some roles
///
/// For example: Function for Administator and first role must have rule 0000 0110
#[derive(Debug)]
pub struct AccessToken {
    pub user_name: String,
    pub user_role: u8,
    /// When the token was issued, in milliseconds since the Unix epoch.
    pub date_spawn: u128,
}

/// The milliseconds since the Unix epoch on the system clock, 0 where the
/// clock stands before the epoch.
fn now_millis() -> u128 {
    match since_epoch(&std::time::SystemTime::now()) {
        Ok(elapsed) => elapsed.as_millis(),
        Err(_) => 0,
    }
}

impl AccessToken {
    /// Whether the token is alive at `now`, given in milliseconds since
    /// the Unix epoch: it was issued no later than `now`, and no more than
    /// `token_life_time` milliseconds before. A token from the future is
    /// not alive.
    pub open spec fn alive(&self, now: u128, token_life_time: u128) -> bool {
        self.date_spawn <= now && now - self.date_spawn <= token_life_time
    }

    /// Whether the token is alive at `now`.
    pub fn is_alive(&self, now: u128, token_life_time: u128) -> (alive: bool)
        ensures
            alive == self.alive(now, token_life_time),
    {
        self.date_spawn <= now && now - self.date_spawn <= token_life_time
    }

    /// Whether the token is alive now, by the system clock.
    pub fn check_time(&self, token_life_time: &u128) -> (alive: bool)
        ensures
            exists|now: u128| alive == self.alive(now, *token_life_time),
    {
        let now = now_millis();
        self.is_alive(now, *token_life_time)
    }

    /// The token itself where it is alive now, by the system clock, and
    /// an error where it is not.
    pub fn if_alive(self, token_life_time: &u128) -> (checked: Result<AccessToken, ()>)
        ensures
            match checked {
                Ok(token) => token == self && exists|now: u128|
                    self.alive(now, *token_life_time),
                Err(_) => exists|now: u128| !self.alive(now, *token_life_time),
            },
    {
        if self.check_time(token_life_time) {
            Ok(self)
        } else {
            Err(())
        }
    }
}

/// `@@` stands in `s` at index `i`.
pub open spec fn mark_at(s: Seq<char>, i: int) -> bool {
    0 <= i && i + 1 < s.len() && s[i] == '@' && s[i + 1] == '@'
}

/// `i` is where `@@` first occurs in `s`, or the length of `s` when it does
/// not occur in it.
pub open spec fn is_first_mark(s: Seq<char>, i: int) -> bool {
    &&& 0 <= i <= s.len()
    &&& i < s.len() ==> mark_at(s, i)
    &&& forall|j: int| 0 <= j < i ==> !mark_at(s, j)
}

/// Where `@@` first occurs in `s`; the length of `s` when it does not occur.
pub open spec fn first_mark(s: Seq<char>) -> int {
    choose|i: int| is_first_mark(s, i)
}

/// The payload and the signature of a token. The token is cut at each `@@`,
/// from the left: the payload is what stands before the first `@@`, the
/// signature what stands between the first and the second, or after the
/// first where there is no second. A payload cannot hold `@@`: it would be
/// cut short there. A token without `@@` has no parts.
pub open spec fn token_parts(token: Seq<char>) -> Option<(Seq<char>, Seq<char>)> {
    let at = first_mark(token);
    if 0 <= at < token.len() {
        let rest = token.skip(at + 2);
        Some((token.take(at), rest.take(first_mark(rest))))
    } else {
        None
    }
}

/// At most one index is the first occurrence of `@@` in `s`, and it is
/// `first_mark(s)`.
pub proof fn lemma_first_mark_is(s: Seq<char>, i: int)
    requires
        is_first_mark(s, i),
    ensures
        first_mark(s) == i,
{
}

fn find_mark(chars: &Vec<char>, from: usize) -> (at: usize)
    requires
        from <= chars.len(),
    ensures
        from <= at <= chars.len(),
        at - from == first_mark(chars@.skip(from as int)),
        at < chars.len() ==> at + 2 <= chars.len(),
{
    let mut at: usize = from;
    while at < chars.len() && !(chars.len() - at >= 2 && chars[at] == '@' && chars[at + 1] == '@')
        invariant
            from <= at <= chars.len(),
            forall|j: int| from <= j < at ==> !mark_at(chars@, j),
        decreases chars.len() - at,
    {
        at += 1;
    }
    proof {
        let rest = chars@.skip(from as int);
        assert forall|j: int| 0 <= j < at - from implies !mark_at(rest, j) by {
            assert(!mark_at(chars@, from + j));
        }
        lemma_first_mark_is(rest, at - from);
    }
    at
}

/// Cuts a token into its payload and its signature.
pub fn split_token(token_str: &str) -> (parts: Option<(String, String)>)
    ensures
        match parts {
            Some((payload, signature)) => token_parts(token_str@) == Some((payload@, signature@)),
            None => token_parts(token_str@) is None,
        },
{
    let chars = to_chars(token_str);
    assert(chars@.skip(0) == chars@);
    let at = find_mark(&chars, 0);
    if at < chars.len() {
        let end = find_mark(&chars, at + 2);
        assert(token_str@.skip(at + 2).take(end - at - 2) == token_str@.subrange(
            at + 2,
            end as int,
        ));
        Some((cut(token_str, 0, at), cut(token_str, at + 2, end)))
    } else {
        None
    }
}

/// The base64 text, in the standard alphabet and with padding, that
/// `base64::encode` gives for the bytes of `text`.
pub uninterp spec fn base64_encoded(text: Seq<char>) -> Seq<char>;

/// The bytes that `base64::decode` reads from `text`, where `text` is
/// base64 in the standard alphabet.
pub uninterp spec fn base64_decoded(text: Seq<char>) -> Option<Seq<u8>>;

/// Why text is no base64, `base64::DecodeError`.
#[verifier::external_type_specification]
#[verifier::external_body]
pub struct ExDecodeError(base64::DecodeError);

/// `base64::encode`, on the bytes of a string slice. The result is a
/// function of those bytes. The outside function panics only where the
/// length of the result overflows, which no slice is long enough for.
#[verifier::external_body]
fn base64_encode(text: &str) -> (encoded: String)
    ensures
        encoded@ == base64_encoded(text@),
{
    base64::encode(text)
}

/// `base64::decode`, on the bytes of a string slice. Whether it succeeds,
/// and the bytes it then gives, are a function of those bytes.
#[verifier::external_body]
pub(crate) fn base64_decode(text: &str) -> (decoded: Result<Vec<u8>, base64::DecodeError>)
    ensures
        match decoded {
            Ok(bytes) => base64_decoded(text@) == Some(bytes@),
            Err(_) => base64_decoded(text@) is None,
        },
{
    base64::decode(text)
}

/// The base64 form of a token's JSON text.
pub fn encode_token(json: &str) -> (encoded: String)
    ensures
        encoded@ == base64_encoded(json@),
{
    base64_encode(json)
}

/// The JSON text that a payload holds: the payload read as base64, where
/// that gives valid UTF-8.
pub open spec fn payload_text(payload: Seq<char>) -> Option<Seq<char>> {
    match base64_decoded(payload) {
        Some(bytes) => if valid_utf8(bytes) {
            Some(decode_utf8(bytes))
        } else {
            None
        },
        None => None,
    }
}

/// The JSON text that a payload holds, or `None` where the payload is no
/// base64 or holds no text.
pub fn token_json(b64_json: &str) -> (json: Option<String>)
    ensures
        opt_text(json) == payload_text(b64_json@),
{
    match base64_decode(b64_json) {
        Ok(bytes) => match core::str::from_utf8(bytes.as_slice()) {
            Ok(text) => {
                proof {
                    encode_utf8_decode_utf8(text@);
                }
                Some(text.to_owned())
            },
            Err(_) => None,
        },
        Err(_) => None,
    }
}

/// The bytes that a signature is checked as: the signature read as
/// base64, and 256 zero bytes where it is no base64.
pub open spec fn signature_of(sign: Seq<char>) -> Seq<u8> {
    match base64_decoded(sign) {
        Some(bytes) => bytes,
        None => Seq::new(BLANK_SIGNATURE_SIZE as nat, |i: int| 0u8),
    }
}

/// The bytes that a signature is checked as.
pub fn signature_bytes(sign: &str) -> (bytes: Vec<u8>)
    ensures
        bytes@ == signature_of(sign@),
{
    match base64_decode(sign) {
        Ok(bytes) => bytes,
        Err(_) => {
            let mut blank: Vec<u8> = Vec::new();
            while blank.len() < BLANK_SIGNATURE_SIZE
                invariant
                    blank.len() <= BLANK_SIGNATURE_SIZE,
                    forall|i: int| 0 <= i < blank.len() ==> blank@[i] == 0u8,
                decreases BLANK_SIGNATURE_SIZE - blank.len(),
            {
                blank.push(0u8);
            }
            blank
        },
    }
}

/// What verifies signatures against a public key, `openssl::sign::Verifier`.
#[verifier::external_type_specification]
#[verifier::external_body]
pub struct ExVerifier<'a>(openssl::sign::Verifier<'a>);

/// What went wrong inside OpenSSL, `openssl::error::ErrorStack`.
#[verifier::external_type_specification]
#[verifier::external_body]
pub struct ExErrorStack(openssl::error::ErrorStack);

/// `Verifier::update` feeds data into the verifier. Nothing is stated of
/// whether it succeeds.
pub assume_specification<'a>[ openssl::sign::Verifier::<'a>::update ](
    verifier: &mut openssl::sign::Verifier<'a>,
    buf: &[u8],
) -> Result<(), openssl::error::ErrorStack>;

/// `Verifier::verify` says whether the data fed into the verifier matches
/// the signature. Nothing is stated of its answer.
pub assume_specification<'a>[ openssl::sign::Verifier::<'a>::verify ](
    verifier: &openssl::sign::Verifier<'a>,
    signature: &[u8],
) -> Result<bool, openssl::error::ErrorStack>;

/// Whether a verification that ended as `verified` stands for a valid
/// signature: only where it ran, and said so.
pub fn signature_verdict(verified: Result<bool, openssl::error::ErrorStack>) -> (valid: bool)
    ensures
        valid == (verified == Ok::<bool, openssl::error::ErrorStack>(true)),
{
    match verified {
        Ok(result) => result,
        Err(_) => false,
    }
}

/// Checks the signature `sign` of the payload `json` with `verifier`. A
/// verifier that could not be made, data that it does not take and a
/// verification that does not run all mean that the signature is not
/// valid.
pub fn check_token_sign(
    verifier: Result<openssl::sign::Verifier<'_>, openssl::error::ErrorStack>,
    json: &str,
    sign: &str,
) -> (valid: bool)
    ensures
        verifier is Err ==> !valid,
{
    let mut verifier = match verifier {
        Ok(verifier) => verifier,
        Err(_) => { return false; },
    };
    match verifier.update(json.as_bytes()) {
        Ok(_) => (),
        Err(_) => { return false; },
    };
    let signature = signature_bytes(sign);
    signature_verdict(verifier.verify(signature.as_slice()))
}

} // verus!
