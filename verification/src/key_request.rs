//! Getting the public key for tokens from the authentication server: what
//! is sent to it, and what is read from its answers.

use vstd::prelude::*;
use vstd::string::StringExecFns;
use crate::ras_auth_client::{base64_decode, base64_decoded};
use crate::text::opt_text;

verus! {

/// The longest PEM text that OpenSSL takes, in bytes.
pub const PEM_SIZE_LIMIT: usize = 0x7fff_ffff;

/// The address that a login is sent to.
pub open spec fn login_address(ras_auth_uri: Seq<char>) -> Seq<char> {
    ras_auth_uri + "/login"@
}

/// The address that the public key is asked for at.
pub open spec fn public_key_address(ras_auth_uri: Seq<char>) -> Seq<char> {
    ras_auth_uri + "/get_public_key"@
}

/// The body of a login.
pub open spec fn login_body(login: Seq<char>, password: Seq<char>) -> Seq<char> {
    "\n\t\t{\n\t\t\t\"name\": \""@ + login + "\",\n\t\t\t\"password\": \""@ + password
        + "\"\n\t\t}\n\t"@
}

/// The body of a request for the public key.
pub open spec fn public_key_body(access_token: Seq<char>) -> Seq<char> {
    "\n\t\t{\n\t\t\t\"token\": \""@ + access_token + "\"\n\t\t}\n\t"@
}

/// The address that a login is sent to.
pub fn login_uri(ras_auth_uri: &str) -> (uri: String)
    ensures
        uri@ == login_address(ras_auth_uri@),
{
    ras_auth_uri.to_owned().concat("/login")
}

/// The address that the public key is asked for at.
pub fn public_key_uri(ras_auth_uri: &str) -> (uri: String)
    ensures
        uri@ == public_key_address(ras_auth_uri@),
{
    ras_auth_uri.to_owned().concat("/get_public_key")
}

/// The body of a login with a name and a password. Neither is escaped.
pub fn login_query(login: &str, password: &str) -> (query: String)
    ensures
        query@ == login_body(login@, password@),
{
    let mut query = "\n\t\t{\n\t\t\t\"name\": \"".to_owned();
    query.append(login);
    query.append("\",\n\t\t\t\"password\": \"");
    query.append(password);
    query.append("\"\n\t\t}\n\t");
    query
}

/// The body of a request for the public key, made with an access token.
/// The token is not escaped.
pub fn public_key_query(access_token: &str) -> (query: String)
    ensures
        query@ == public_key_body(access_token@),
{
    let mut query = "\n\t\t{\n\t\t\t\"token\": \"".to_owned();
    query.append(access_token);
    query.append("\"\n\t\t}\n\t");
    query
}

/// What `serde_json` reads of the member `name` in the JSON text `json`:
/// nothing where `json` is no JSON; no text where it is no object, has no
/// such member, or the member is no string; else the member's text.
pub uninterp spec fn json_member(json: Seq<char>, name: Seq<char>) -> Option<Option<Seq<char>>>;

/// Why text is no JSON, `serde_json::Error`.
#[verifier::external_type_specification]
#[verifier::external_body]
pub struct ExJsonError(serde_json::Error);

/// `serde_json::from_str` to a `serde_json::Value`, then the text of the
/// member `name`, by `Index` and `Value::as_str`: the error where `json` is
/// no JSON, and else the member's text if there is such a member and it is
/// a string. The outcome is a function of the two texts.
#[verifier::external_body]
fn text_member(json: &str, name: &str) -> (member: Result<Option<String>, serde_json::Error>)
    ensures
        match member {
            Ok(text) => json_member(json@, name@) == Some(opt_text(text)),
            Err(_) => json_member(json@, name@) is None,
        },
{
    match serde_json::from_str::<serde_json::Value>(json) {
        Ok(value) => Ok(value[name].as_str().map(str::to_owned)),
        Err(error) => Err(error),
    }
}

/// The access token in the answer to a login: the text of its member
/// `access_token`.
pub fn access_token_of(response_json: &str) -> (token: Result<Option<String>, serde_json::Error>)
    ensures
        match token {
            Ok(text) => json_member(response_json@, "access_token"@) == Some(opt_text(text)),
            Err(_) => json_member(response_json@, "access_token"@) is None,
        },
{
    text_member(response_json, "access_token")
}

/// The encoded public key in the answer to a request for it: the text of
/// its member `public_key`.
pub fn public_key_text_of(response_json: &str) -> (key: Result<
    Option<String>,
    serde_json::Error,
>)
    ensures
        match key {
            Ok(text) => json_member(response_json@, "public_key"@) == Some(opt_text(text)),
            Err(_) => json_member(response_json@, "public_key"@) is None,
        },
{
    text_member(response_json, "public_key")
}

/// A key, `openssl::pkey::PKey`.
#[verifier::external_type_specification]
#[verifier::external_body]
#[verifier::reject_recursive_types(T)]
pub struct ExPKey<T>(openssl::pkey::PKey<T>);

/// The mark of a key that has only public parts, `openssl::pkey::Public`.
#[verifier::external_type_specification]
#[verifier::external_body]
pub struct ExPublic(openssl::pkey::Public);

/// `PKey::public_key_from_pem` reads a public key from PEM text. It
/// panics on more bytes than a C `int` counts; the precondition leaves
/// those out. Nothing is stated of the key, or of whether there is one.
pub assume_specification[ openssl::pkey::PKey::<openssl::pkey::Public>::public_key_from_pem ](
    pem: &[u8],
) -> Result<openssl::pkey::PKey<openssl::pkey::Public>, openssl::error::ErrorStack>
    requires
        pem@.len() <= PEM_SIZE_LIMIT,
;

/// Why an encoded public key gave no key.
#[derive(Debug)]
pub enum KeyError {
    /// The text is no base64.
    Encoding(base64::DecodeError),
    /// The PEM text is longer than OpenSSL takes.
    TooLong,
    /// OpenSSL found no public key in the PEM text.
    Pem(openssl::error::ErrorStack),
}

/// The public key that `encoded` holds: `encoded` is base64 of the key's
/// PEM text.
pub fn public_key_of(encoded: &str) -> (key: Result<
    openssl::pkey::PKey<openssl::pkey::Public>,
    KeyError,
>)
    ensures
        key matches Err(KeyError::Encoding(_)) <==> base64_decoded(encoded@) is None,
        key matches Err(KeyError::TooLong) <==> (base64_decoded(encoded@) matches Some(pem)
            && pem.len() > PEM_SIZE_LIMIT),
{
    let pem = match base64_decode(encoded) {
        Ok(pem) => pem,
        Err(error) => { return Err(KeyError::Encoding(error)); },
    };
    if pem.len() > PEM_SIZE_LIMIT {
        return Err(KeyError::TooLong);
    }
    match openssl::pkey::PKey::public_key_from_pem(pem.as_slice()) {
        Ok(key) => Ok(key),
        Err(error) => Err(KeyError::Pem(error)),
    }
}

} // verus!
