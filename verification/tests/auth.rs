use eutopic_api::auth::{bearer_token, AuthData, AuthUser, AuthnMiddlewareFactory};

fn token(header: &str) -> Option<String> {
    bearer_token(Some(header.as_bytes())).ok()
}

fn refusal(header: Option<&str>) -> String {
    match bearer_token(header.map(|h| h.as_bytes())) {
        Ok(t) => panic!("expected a refusal, got {}", t),
        Err(e) => e.message,
    }
}

fn user(id: &str) -> AuthUser {
    AuthUser {
        local_id: id.to_string(),
        display_name: None,
        email: Some("a@b.c".to_string()),
        photo_url: None,
    }
}

#[test]
fn bearer_header_gives_token() {
    assert_eq!(token("Bearer abc").unwrap(), "abc");
}

#[test]
fn bearer_header_round_trip_for_many_tokens() {
    for t in ["x", "eyJhbGciOiJSUzI1NiJ9.e30.sig", "123", "a-b_c.d~e"] {
        assert_eq!(token(&format!("Bearer {}", t)).unwrap(), t);
    }
}

#[test]
fn missing_header_is_unauthorized() {
    assert_eq!(refusal(None), "Unauthorized");
}

#[test]
fn other_scheme_is_unauthorized() {
    assert_eq!(refusal(Some("Basic abc")), "Unauthorized");
    assert_eq!(refusal(Some("bearer abc")), "Unauthorized");
    assert_eq!(refusal(Some("Bearerabc")), "Unauthorized");
}

#[test]
fn scheme_without_token_is_unauthorized() {
    assert_eq!(refusal(Some("Bearer")), "Unauthorized");
    assert_eq!(refusal(Some("Bearer   ")), "Unauthorized");
}

#[test]
fn empty_header_is_unauthorized() {
    assert_eq!(refusal(Some("")), "Unauthorized");
    assert_eq!(refusal(Some(" \t ")), "Unauthorized");
}

#[test]
fn extra_whitespace_and_words_are_tolerated() {
    assert_eq!(token("  Bearer \t abc   ").unwrap(), "abc");
    assert_eq!(token("\tBearer\tabc\tdef").unwrap(), "abc");
    assert_eq!(token("Bearer abc def ghi").unwrap(), "abc");
}

#[test]
fn from_request_without_data_is_not_authorized() {
    match AuthData::from_request(None) {
        Ok(_) => panic!("expected a refusal"),
        Err(e) => assert_eq!(e.message, "not authorized"),
    }
}

#[test]
fn from_request_with_data_gives_it_back() {
    let data = AuthData::from_request(Some(AuthData { user: user("u1") })).ok().unwrap();
    assert_eq!(data.user.local_id, "u1");
    assert_eq!(data.user.email.as_deref(), Some("a@b.c"));
}

#[test]
fn middleware_admits_found_user_and_refuses_failed_lookup() {
    let m = AuthnMiddlewareFactory.new_transform(7u32);
    assert_eq!(**m.service_handle(), 7);
    let ok = m.on_user_info(Ok(user("u2"))).ok().unwrap();
    assert_eq!(ok.user.local_id, "u2");
    match m.on_user_info(Err("INVALID_ID_TOKEN".to_string())) {
        Ok(_) => panic!("expected a refusal"),
        Err(e) => assert_eq!(e.message, "Unauthorized"),
    }
    assert_eq!(m.access_token(Some(b"Bearer t0k".as_slice())).ok().unwrap(), "t0k");
}
