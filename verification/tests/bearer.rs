use kanban::bearer::BearerToken;

#[test]
fn bearer_header_gives_its_token() {
    let t = BearerToken::from_header(Some("Bearer abc123")).unwrap();
    assert_eq!(t.value, "abc123");
    let t = BearerToken::from_header(Some("Bearer ")).unwrap();
    assert_eq!(t.value, "");
    let t = BearerToken::from_header(Some("Bearer  spaced é")).unwrap();
    assert_eq!(t.value, " spaced é");
}

#[test]
fn other_headers_are_unauthorized() {
    for h in [None, Some(""), Some("Bearer"), Some("bearer abc"), Some("Basic abc"), Some("Bearer\tabc"), Some("éBearer x")] {
        match BearerToken::from_header(h) {
            Err((s, _)) => assert_eq!(s.code, 401),
            Ok(_) => panic!("accepted {:?}", h),
        }
    }
}
