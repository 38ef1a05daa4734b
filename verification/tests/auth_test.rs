use openssl::error::ErrorStack;
use openssl::hash::MessageDigest;
use openssl::pkey::{PKey, Private};
use openssl::rsa::Rsa;
use openssl::sign::{Signer, Verifier};
use ras_service::ras_auth_client::{
    check_token_sign, encode_token, signature_bytes, signature_verdict, split_token, token_json,
    AccessToken, BLANK_SIGNATURE_SIZE, TOKEN_LIFE_TIME,
};
use std::time::{SystemTime, UNIX_EPOCH};

fn token(date_spawn: u128) -> AccessToken {
    AccessToken { user_name: "user".to_string(), user_role: 6, date_spawn }
}

fn now_millis() -> u128 {
    SystemTime::now().duration_since(UNIX_EPOCH).unwrap().as_millis()
}

fn parts(payload: &str, signature: &str) -> Option<(String, String)> {
    Some((payload.to_string(), signature.to_string()))
}

#[test]
fn default_life_time_is_thirty_seconds() {
    assert_eq!(TOKEN_LIFE_TIME, 30_000);
    assert_eq!(BLANK_SIGNATURE_SIZE, 256);
}

#[test]
fn token_is_alive_within_its_life_time() {
    let t = token(1_000);
    assert!(t.is_alive(1_000, 0));
    assert!(t.is_alive(1_000, 30_000));
    assert!(t.is_alive(31_000, 30_000));
    assert!(!t.is_alive(31_001, 30_000));
    assert!(!t.is_alive(1_001, 0));
    assert!(t.is_alive(u128::MAX, u128::MAX));
}

#[test]
fn token_from_the_future_is_not_alive() {
    let t = token(1_000);
    assert!(!t.is_alive(999, 30_000));
    assert!(!t.is_alive(0, u128::MAX));
    assert!(!token(u128::MAX).is_alive(0, u128::MAX));
}

#[test]
fn check_time_goes_by_the_clock() {
    let life = 30_000u128;
    assert!(token(now_millis()).check_time(&life));
    assert!(token(now_millis() - 1_000).check_time(&life));
    assert!(!token(now_millis() - 60_000).check_time(&life));
    assert!(!token(0).check_time(&life));
    assert!(!token(now_millis() + 3_600_000).check_time(&life));
    assert!(token(0).check_time(&u128::MAX));
}

#[test]
fn if_alive_hands_the_token_back() {
    let checked = token(now_millis()).if_alive(&30_000);
    let t = checked.expect("a token that is alive");
    assert_eq!(t.user_name, "user");
    assert_eq!(t.user_role, 6);
    assert!(token(0).if_alive(&30_000).is_err());
}

#[test]
fn token_is_cut_at_the_marks() {
    assert_eq!(split_token("payload@@signature"), parts("payload", "signature"));
    assert_eq!(split_token("a@@b@@c"), parts("a", "b"));
    assert_eq!(split_token("a@@"), parts("a", ""));
    assert_eq!(split_token("@@b"), parts("", "b"));
    assert_eq!(split_token("@@"), parts("", ""));
    assert_eq!(split_token("a@@@b"), parts("a", "@b"));
    assert_eq!(split_token("a@@@@b"), parts("a", ""));
    assert_eq!(split_token("a@@b@@@c"), parts("a", "b"));
    assert_eq!(split_token("p\u{e9}@@s\u{20ac}"), parts("p\u{e9}", "s\u{20ac}"));
}

#[test]
fn token_without_a_mark_has_no_parts() {
    assert_eq!(split_token(""), None);
    assert_eq!(split_token("payload"), None);
    assert_eq!(split_token("pay@load"), None);
    assert_eq!(split_token("payload@"), None);
    assert_eq!(split_token("@"), None);
    assert_eq!(split_token("a@b@c"), None);
}

#[test]
fn token_text_is_encoded_as_base64() {
    assert_eq!(encode_token(""), "");
    assert_eq!(encode_token("f"), "Zg==");
    assert_eq!(encode_token("fo"), "Zm8=");
    assert_eq!(encode_token("foo"), "Zm9v");
    assert_eq!(encode_token("hello world"), "aGVsbG8gd29ybGQ=");
    assert_eq!(encode_token("{\"a\":1}"), "eyJhIjoxfQ==");
}

#[test]
fn payload_is_read_as_base64_of_text() {
    assert_eq!(token_json("aGVsbG8gd29ybGQ="), Some("hello world".to_string()));
    assert_eq!(token_json("eyJhIjoxfQ=="), Some("{\"a\":1}".to_string()));
    assert_eq!(token_json(""), Some(String::new()));
    assert_eq!(token_json("w6k="), Some("\u{e9}".to_string()));
    assert_eq!(token_json("aGVsbG8"), Some("hello".to_string()));
}

#[test]
fn payload_that_is_no_base64_of_text_is_refused() {
    assert_eq!(token_json("not base64!"), None);
    assert_eq!(token_json("aGVsbG8gd29ybGQ=="), None);
    assert_eq!(token_json("a"), None);
    assert_eq!(token_json("/w=="), None);
    assert_eq!(token_json("hello world"), None);
}

#[test]
fn encoding_and_reading_a_payload_agree() {
    for text in ["", "a", "{\"user_name\":\"x\"}", "caf\u{e9} \u{20ac}"] {
        assert_eq!(token_json(&encode_token(text)), Some(text.to_string()));
    }
}

#[test]
fn signature_is_read_as_base64() {
    assert_eq!(signature_bytes("AQID"), vec![1u8, 2, 3]);
    assert_eq!(signature_bytes("/w=="), vec![255u8]);
    assert_eq!(signature_bytes(""), Vec::<u8>::new());
}

#[test]
fn signature_that_is_no_base64_is_blank() {
    assert_eq!(signature_bytes("not base64!"), vec![0u8; 256]);
    assert_eq!(signature_bytes("A"), vec![0u8; 256]);
}

#[test]
fn verdict_is_valid_only_for_a_verification_that_said_so() {
    assert!(signature_verdict(Ok(true)));
    assert!(!signature_verdict(Ok(false)));
    assert!(!signature_verdict(Err(ErrorStack::get())));
}

fn key() -> PKey<Private> {
    PKey::from_rsa(Rsa::generate(2048).unwrap()).unwrap()
}

fn sign(key: &PKey<Private>, payload: &str) -> String {
    let mut signer = Signer::new(MessageDigest::sha256(), key).unwrap();
    signer.update(payload.as_bytes()).unwrap();
    base64::encode(signer.sign_to_vec().unwrap())
}

#[test]
fn signature_of_the_payload_is_valid() {
    let key = key();
    let payload = encode_token("{\"user_name\":\"user\",\"user_role\":1,\"date_spawn\":5}");
    let signature = sign(&key, &payload);
    let verifier = || Verifier::new(MessageDigest::sha256(), &key);
    assert!(check_token_sign(verifier(), &payload, &signature));
    assert!(!check_token_sign(verifier(), "other payload", &signature));
    assert!(!check_token_sign(verifier(), &payload, "not base64!"));
    assert!(!check_token_sign(verifier(), &payload, ""));
    assert!(!check_token_sign(verifier(), &payload, &sign(&key, "other payload")));
}

#[test]
fn signature_of_another_key_is_not_valid() {
    let key = key();
    let other = self::key();
    let payload = "payload";
    let signature = sign(&other, payload);
    assert!(!check_token_sign(
        Verifier::new(MessageDigest::sha256(), &key),
        payload,
        &signature
    ));
}

#[test]
fn no_verifier_means_no_valid_signature() {
    let key = key();
    let payload = "payload";
    let signature = sign(&key, payload);
    assert!(!check_token_sign(Err(ErrorStack::get()), payload, &signature));
}
