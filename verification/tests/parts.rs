use magic_login::challenge::{
    challenges_match, decode_challenge, encode_challenge, random_challenge, NONCE_LEN,
};
use magic_login::config::{decode_cookie_key, Config, ConfigError};
use magic_login::template::fill;

#[test]
fn nonce_length() {
    assert_eq!(NONCE_LEN, 32);
}

#[test]
fn encode_challenge_known_values() {
    assert_eq!(encode_challenge(&vec![0xDE, 0xAD, 0xBE, 0xEF]), "JsoUl8");
    assert_eq!(encode_challenge(&vec![0]), "84");
    assert_eq!(encode_challenge(&vec![]), "");
    assert_eq!(encode_challenge(&vec![0u8; 32]), "2pX8wOr5j2ACunjH7GLL8mWZWHmY1LA1ZO6Adwksjhy");
    assert_eq!(encode_challenge(&vec![255u8; 32]), "3e5HsniBS5KOobTZEWggGY393ZY73gK28nCKGtVlTPx1");
    let counting: Vec<u8> = (0u8..32).collect();
    assert_eq!(encode_challenge(&counting), "halQ7982MUUdFxzoJwvaUp0xQKVzUXvkSWIT6iFTnhy");
}

#[test]
fn encode_challenge_decodes_back() {
    let nonce: Vec<u8> = (100u8..132).collect();
    let challenge = encode_challenge(&nonce);
    assert_eq!(base_62::decode(&challenge).unwrap(), nonce);
}

#[test]
fn random_challenge_decodes_to_nonce_length() {
    let challenge = random_challenge().unwrap();
    assert!(!challenge.is_empty());
    let nonce = base_62::decode(&challenge).unwrap();
    assert!(nonce.len() >= 32);
    assert_eq!(nonce.len(), NONCE_LEN);
}

#[test]
fn random_challenge_is_url_safe() {
    for _ in 0..20 {
        let challenge = random_challenge().unwrap();
        assert!(challenge.chars().all(|c| c.is_ascii_alphanumeric()));
        assert!(challenge.len() >= 43);
    }
}

#[test]
fn random_challenges_differ() {
    let a = random_challenge().unwrap();
    let b = random_challenge().unwrap();
    let c = random_challenge().unwrap();
    assert_ne!(a, b);
    assert_ne!(b, c);
    assert_ne!(a, c);
}

#[test]
fn fill_replaces_every_occurrence() {
    assert_eq!(fill("Hello USER_ID!", "USER_ID", "alice"), "Hello alice!");
    assert_eq!(fill("USER_ID and USER_ID", "USER_ID", "bob"), "bob and bob");
    assert_eq!(fill("USER_IDUSER_ID", "USER_ID", ""), "");
    assert_eq!(fill("nothing here", "USER_ID", "bob"), "nothing here");
    assert_eq!(fill("", "USER_ID", "bob"), "");
    assert_eq!(fill("USER_I", "USER_ID", "bob"), "USER_I");
}

#[test]
fn fill_reads_from_the_left_without_overlap() {
    assert_eq!(fill("aaa", "aa", "b"), "ba");
    assert_eq!(fill("aaaa", "aa", "b"), "bb");
    assert_eq!(fill("abab", "ab", "ab"), "abab");
    assert_eq!(fill("xUSER_USER_IDx", "USER_ID", "u"), "xUSER_ux");
}

#[test]
fn fill_does_not_read_the_value_again() {
    assert_eq!(fill("USER_ID", "USER_ID", "USER_IDUSER_ID"), "USER_IDUSER_ID");
}

#[test]
fn fill_with_empty_placeholder_keeps_text() {
    assert_eq!(fill("abc", "", "X"), "abc");
}

#[test]
fn fill_with_wide_characters() {
    assert_eq!(fill("h\u{e9}llo USER_ID \u{4e16}", "USER_ID", "\u{e5}sa"), "h\u{e9}llo \u{e5}sa \u{4e16}");
}

#[test]
fn cookie_key_is_decoded() {
    assert_eq!(decode_cookie_key(Some("aGVsbG8gd29ybGQ=")), Ok(b"hello world".to_vec()));
    assert_eq!(decode_cookie_key(Some("")), Ok(vec![]));
    assert_eq!(decode_cookie_key(Some("AAECAw==")), Ok(vec![0, 1, 2, 3]));
}

#[test]
fn cookie_key_missing() {
    assert_eq!(decode_cookie_key(None), Err(ConfigError::MissingCookieSecret));
}

#[test]
fn cookie_key_invalid() {
    assert_eq!(decode_cookie_key(Some("not base64!")), Err(ConfigError::InvalidCookieSecret));
    assert_eq!(decode_cookie_key(Some("a")), Err(ConfigError::InvalidCookieSecret));
    assert_eq!(decode_cookie_key(Some("ab!d")), Err(ConfigError::InvalidCookieSecret));
}

#[test]
fn config_with_all_values() {
    let c = Config::from_env(Some("AAECAw=="), Some("key"), Some("https://example.com"), Some("1")).unwrap();
    assert_eq!(c.cookie_key, vec![0, 1, 2, 3]);
    assert_eq!(c.approval_key, "key");
    assert_eq!(c.web_url, "https://example.com");
    assert!(c.secure_cookies);
}

#[test]
fn config_defaults() {
    let c = Config::from_env(Some("AAECAw=="), Some("key"), None, None).unwrap();
    assert_eq!(c.web_url, "http://localhost:5000");
    assert!(!c.secure_cookies);
}

#[test]
fn config_production_counts_by_presence() {
    let c = Config::from_env(Some("AAECAw=="), Some("key"), None, Some("")).unwrap();
    assert!(c.secure_cookies);
}

#[test]
fn config_errors_in_order() {
    assert_eq!(Config::from_env(None, None, None, None), Err(ConfigError::MissingCookieSecret));
    assert_eq!(Config::from_env(Some("%%%"), None, None, None), Err(ConfigError::InvalidCookieSecret));
    assert_eq!(Config::from_env(Some("AAECAw=="), None, None, None), Err(ConfigError::MissingApprovalKey));
}

#[test]
fn config_assemble() {
    assert_eq!(
        Config::assemble(Ok(vec![9, 9]), Some("k"), None, true),
        Ok(Config {
            cookie_key: vec![9, 9],
            approval_key: "k".to_string(),
            web_url: "http://localhost:5000".to_string(),
            secure_cookies: true,
        })
    );
    assert_eq!(
        Config::assemble(Err(ConfigError::InvalidCookieSecret), Some("k"), None, true),
        Err(ConfigError::InvalidCookieSecret)
    );
    assert_eq!(Config::assemble(Ok(vec![]), None, Some("x"), false), Err(ConfigError::MissingApprovalKey));
}

#[test]
fn config_error_messages() {
    assert_eq!(ConfigError::MissingCookieSecret.message(), "Missing env cookie secret key.");
    assert_eq!(ConfigError::InvalidCookieSecret.message(), "Cookie secret key is not valid base64.");
    assert_eq!(ConfigError::MissingApprovalKey.message(), "Missing env ApproveAPI Test API Key");
}

#[test]
fn challenges_match_on_equal_texts_only() {
    assert!(challenges_match("", ""));
    assert!(challenges_match("abc", "abc"));
    assert!(!challenges_match("abc", "abd"));
    assert!(!challenges_match("abc", "xbc"));
    assert!(!challenges_match("abc", "ab"));
    assert!(!challenges_match("ab", "abc"));
    assert!(!challenges_match("", "a"));
    assert!(!challenges_match("abc", "ABC"));
}

#[test]
fn challenges_match_with_wide_characters() {
    assert!(challenges_match("h\u{e9}llo", "h\u{e9}llo"));
    assert!(!challenges_match("h\u{e9}llo", "h\u{e8}llo"));
    assert!(!challenges_match("\u{e9}", "e\u{301}"));
    assert!(!challenges_match("\u{e9}", "ab"));
}

#[test]
fn challenges_match_a_drawn_challenge() {
    let challenge = random_challenge().unwrap();
    assert!(challenges_match(&challenge, &challenge.clone()));
    let mut other = challenge.clone();
    other.pop();
    other.push('-');
    assert!(!challenges_match(&challenge, &other));
}

#[test]
fn decode_challenge_known_values() {
    assert_eq!(decode_challenge("JsoUl8"), Some(vec![0xDE, 0xAD, 0xBE, 0xEF]));
    assert_eq!(decode_challenge("84"), Some(vec![0]));
    assert_eq!(decode_challenge(""), Some(vec![]));
    assert_eq!(
        decode_challenge("2pX8wOr5j2ACunjH7GLL8mWZWHmY1LA1ZO6Adwksjhy"),
        Some(vec![0u8; 32])
    );
}

#[test]
fn decode_challenge_rejects_other_characters() {
    assert_eq!(decode_challenge("abc-"), None);
    assert_eq!(decode_challenge("wSBzv9UB5PeI/26"), None);
    assert_eq!(decode_challenge("jSO+uL8"), None);
    assert_eq!(decode_challenge("h\u{e9}"), None);
}

#[test]
fn zero_nonce_keeps_its_length() {
    let challenge = encode_challenge(&vec![0u8; 32]);
    assert!(!challenge.is_empty());
    assert_ne!(challenge, "0");
    assert_eq!(decode_challenge(&challenge), Some(vec![0u8; 32]));
}

#[test]
fn drawn_challenge_decodes_to_the_nonce_length_and_back() {
    let challenge = random_challenge().unwrap();
    let nonce = decode_challenge(&challenge).unwrap();
    assert_eq!(nonce.len(), NONCE_LEN);
    assert_eq!(encode_challenge(&nonce), challenge);
}

#[test]
fn different_nonces_give_different_challenges() {
    let mut a = vec![7u8; 32];
    let b = a.clone();
    a[31] = 8;
    assert_ne!(encode_challenge(&a), encode_challenge(&b));
    let mut c = vec![0u8; 32];
    c[0] = 1;
    assert_ne!(encode_challenge(&c), encode_challenge(&vec![0u8; 32]));
    assert_ne!(encode_challenge(&vec![0u8; 31]), encode_challenge(&vec![0u8; 32]));
}
