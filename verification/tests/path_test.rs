use ras_service::path::{decode_path, is_percent_decodable, split_path};

#[test]
fn path_with_query_splits_into_name_and_params() {
    let (name, params) = split_path("/api/some_test?x=1");
    assert_eq!(name, "some_test");
    assert_eq!(params, Some("x=1".to_string()));
}

#[test]
fn path_without_query_has_no_params() {
    let (name, params) = split_path("/api/some_test");
    assert_eq!(name, "some_test");
    assert_eq!(params, None);
}

#[test]
fn params_are_everything_after_the_first_question_mark() {
    let (name, params) = split_path("/api/f?a=1?b=2");
    assert_eq!(name, "f");
    assert_eq!(params, Some("a=1?b=2".to_string()));
}

#[test]
fn empty_query_is_present_but_empty() {
    let (name, params) = split_path("/api/f?");
    assert_eq!(name, "f");
    assert_eq!(params, Some(String::new()));
}

#[test]
fn final_segment_is_taken_after_the_last_slash() {
    let (name, params) = split_path("/api/f?x=a/b");
    assert_eq!(name, "b");
    assert_eq!(params, None);
    let (name, params) = split_path("/");
    assert_eq!(name, "");
    assert_eq!(params, None);
    let (name, params) = split_path("plain");
    assert_eq!(name, "plain");
    assert_eq!(params, None);
    let (name, params) = split_path("");
    assert_eq!(name, "");
    assert_eq!(params, None);
}

#[test]
fn decode_replaces_escapes() {
    assert_eq!(
        decode_path("https%3A%2F%2Fgithub.com"),
        Some("https://github.com".to_string())
    );
    assert_eq!(decode_path("/api/a%20b"), Some("/api/a b".to_string()));
    assert_eq!(decode_path("/api/plain"), Some("/api/plain".to_string()));
    assert_eq!(decode_path(""), Some(String::new()));
    assert_eq!(decode_path("%41%6a%6A"), Some("Ajj".to_string()));
}

#[test]
fn decode_maps_a_byte_to_the_character_with_that_code_point() {
    assert_eq!(decode_path("%e9"), Some("\u{e9}".to_string()));
    assert_eq!(decode_path("%FF"), Some("\u{ff}".to_string()));
    assert_eq!(decode_path("%00"), Some("\u{0}".to_string()));
}

#[test]
fn decode_accepts_a_plus_sign_before_one_digit() {
    assert_eq!(decode_path("%+a"), Some("\n".to_string()));
    assert_eq!(decode_path("a+b"), Some("a+b".to_string()));
}

#[test]
fn decode_refuses_what_cannot_be_decoded() {
    assert_eq!(decode_path("%"), None);
    assert_eq!(decode_path("%4"), None);
    assert_eq!(decode_path("abc%4"), None);
    assert_eq!(decode_path("%zz"), None);
    assert_eq!(decode_path("%4g"), None);
    assert_eq!(decode_path("%%41"), None);
    assert_eq!(decode_path("%++"), None);
    assert_eq!(decode_path("%-1"), None);
    assert_eq!(decode_path("%1+"), None);
    assert_eq!(decode_path("/api/\u{e9}"), None);
    assert_eq!(decode_path("\u{e9}%41"), None);
}

#[test]
fn decodable_agrees_with_decode() {
    for text in ["", "abc", "%41", "%4", "%zz", "a%2Fb", "\u{20ac}", "%+f", "%+", "100%"] {
        assert_eq!(is_percent_decodable(text), decode_path(text).is_some());
    }
}

#[test]
fn escaped_delimiters_count_after_decoding() {
    let decoded = decode_path("/api%2Fecho%3Fhello=world").unwrap();
    let (name, params) = split_path(&decoded);
    assert_eq!(name, "echo");
    assert_eq!(params, Some("hello=world".to_string()));
}

fn hex(c: char) -> Option<u32> {
    c.to_digit(16)
}

fn expected_decoding(text: &str) -> Option<String> {
    let chars: Vec<char> = text.chars().collect();
    let mut decoded = String::new();
    let mut i = 0;
    while i < chars.len() {
        if chars[i] == '%' {
            if i + 2 >= chars.len() {
                return None;
            }
            let byte = if chars[i + 1] == '+' {
                hex(chars[i + 2])?
            } else {
                hex(chars[i + 1])? * 16 + hex(chars[i + 2])?
            };
            decoded.push(char::from_u32(byte).unwrap());
            i += 3;
        } else {
            if !chars[i].is_ascii() {
                return None;
            }
            decoded.push(chars[i]);
            i += 1;
        }
    }
    Some(decoded)
}

#[test]
fn decoding_of_every_short_text() {
    let alphabet = ['%', '+', '-', '0', '9', 'a', 'F', 'g', '/', '?', '\u{e9}'];
    let mut texts = vec![String::new()];
    let mut count = 0;
    for _ in 0..5 {
        let mut longer = Vec::new();
        for text in &texts {
            for c in alphabet {
                let mut next = text.clone();
                next.push(c);
                longer.push(next);
            }
        }
        for text in &longer {
            assert_eq!(decode_path(text), expected_decoding(text), "decoding {:?}", text);
            count += 1;
        }
        texts = longer;
    }
    assert_eq!(count, 11 + 121 + 1331 + 14641 + 161051);
}
