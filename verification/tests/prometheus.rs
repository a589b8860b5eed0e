use arcpanel::prometheus::{
    check_scrape, generate_token, issue_token, needs_new_token, token_hash, token_prefix,
    ScrapeError, ScrapeQuery, UpdateSettingsReq,
};

#[test]
fn token_prefix_is_stable_length() {
    let t = generate_token();
    assert!(t.starts_with("arcms_"));
    assert_eq!(&t[..15].len(), &15);
    // The next 9 chars (indices 6..15) must be hex — that's the prefix
    // stored for display in the UI.
    assert!(t[6..15].chars().all(|c| c.is_ascii_hexdigit()));
}

#[test]
fn token_is_sufficiently_long() {
    // "arcms_" + two UUIDs with dashes stripped = 6 + 32 + 32 = 70 chars.
    assert_eq!(generate_token().len(), 70);
}

#[test]
fn tokens_differ() {
    assert_ne!(generate_token(), generate_token());
}

#[test]
fn token_hash_is_sha256_hex() {
    assert_eq!(
        token_hash("abc"),
        "ba7816bf8f01cfea414140de5dae2223b00361a396177a9cb410ff61f20015ad"
    );
    assert_eq!(token_prefix("arcms_0123456789abcdef"), "arcms_012345678");
}

#[test]
fn issued_token_is_accepted() {
    let t = issue_token();
    assert_eq!(t.prefix, &t.token[..15]);
    let header = format!("Bearer {}", t.token);
    let q = ScrapeQuery { token: None };
    assert!(check_scrape(true, &Some(t.hash.clone()), Some(header.as_str()), &q).is_ok());
    let q2 = ScrapeQuery { token: Some(t.token.clone()) };
    assert!(check_scrape(true, &Some(t.hash.clone()), None, &q2).is_ok());
}

#[test]
fn scrape_refusals() {
    let t = issue_token();
    let none = ScrapeQuery { token: None };
    assert_eq!(check_scrape(false, &Some(t.hash.clone()), None, &none), Err(ScrapeError::Disabled));
    assert_eq!(check_scrape(true, &None, None, &none), Err(ScrapeError::NoTokenConfigured));
    assert_eq!(check_scrape(true, &Some(String::new()), None, &none), Err(ScrapeError::NoTokenConfigured));
    assert_eq!(check_scrape(true, &Some(t.hash.clone()), None, &none), Err(ScrapeError::TokenRequired));
    assert_eq!(
        check_scrape(true, &Some(t.hash.clone()), Some("Token abc"), &none),
        Err(ScrapeError::TokenRequired)
    );
    assert_eq!(
        check_scrape(true, &Some(t.hash.clone()), Some("Bearer wrong"), &none),
        Err(ScrapeError::InvalidToken)
    );
    assert_eq!(ScrapeError::Disabled.status(), 404);
    assert_eq!(ScrapeError::InvalidToken.status(), 401);
}

#[test]
fn new_token_when_enabling_without_one() {
    let req = UpdateSettingsReq { enabled: true, rotate_token: false };
    assert!(needs_new_token(&req, &None));
    assert!(!needs_new_token(&req, &Some("abc".into())));
    let rot = UpdateSettingsReq { enabled: false, rotate_token: true };
    assert!(needs_new_token(&rot, &Some("abc".into())));
}
