use kanban::crypto::{create_token, hash_password, token_with_suffix, verify_password};

fn is_hex_token(t: &str) -> bool {
    t.len() == 64 && t.chars().all(|c| c.is_ascii_hexdigit() && !c.is_ascii_uppercase())
}

#[test]
fn token_is_sha256_hex_of_email_dash_suffix() {
    assert_eq!(
        token_with_suffix(&"alice@example.com".to_string(), 42),
        "ee284db7bfa85e7fa8e50838f8b1e9e00433ede6107b45f9ddb96a5bb6064802"
    );
    assert_eq!(
        token_with_suffix(&"bob".to_string(), 0),
        "0e7dcc98d6c20f8d5560821e454650cb0f8b7e07accecf1547bde134a467624d"
    );
    assert_eq!(
        token_with_suffix(&"bob".to_string(), 10000000),
        "f4000fe7a588ef67224df1bed24a0486cf2469fb6426a69ab3f8967eac3795eb"
    );
}

#[test]
fn created_tokens_are_hex_tokens_of_some_suffix() {
    let t = create_token(&"bob".to_string());
    assert!(is_hex_token(&t));
    assert!(is_hex_token(&token_with_suffix(&"bob".to_string(), 5)));
}

#[test]
fn hashed_password_verifies_and_others_do_not() {
    let h = hash_password(&"s3cret".to_string()).expect("hashing succeeds");
    assert_ne!(h, "s3cret");
    assert!(h.starts_with("$2b$12$"));
    assert_eq!(verify_password(&"s3cret".to_string(), &h), Some(true));
    assert_eq!(verify_password(&"wrong".to_string(), &h), Some(false));
}

#[test]
fn unreadable_hash_is_an_error() {
    assert_eq!(verify_password(&"s3cret".to_string(), &"s3cret".to_string()), None);
    assert_eq!(verify_password(&"x".to_string(), &"".to_string()), None);
}
