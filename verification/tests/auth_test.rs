use a3c_soc_auth0_events::auth::{authorize, contains_token, token_from_header};
use a3c_soc_auth0_events::{AuthDecision, Authenticated, ErrorResponse, RequireAuth, Token};

fn tokens(ts: &[&str]) -> Vec<Token> {
    ts.iter().map(|t| Token::new(t.to_string())).collect()
}

#[test]
fn token_keeps_value() {
    let t = Token::new("abc".to_string());
    assert_eq!(t.value(), "abc");
    assert!(t == Token::new("abc".to_string()));
    assert!(t != Token::new("abd".to_string()));
}

#[test]
fn header_token_drops_first_seven_bytes() {
    assert_eq!(token_from_header("Bearer secret").value(), "secret");
    assert_eq!(token_from_header("Bearer ").value(), "");
    assert_eq!(token_from_header("Token: xyz").value(), "xyz");
    assert_eq!(token_from_header("Bearer é").value(), "é");
}

#[test]
fn contains_compares_text() {
    let allowed = tokens(&["a", "bb"]);
    assert!(contains_token(&allowed, &Token::new("bb".to_string())));
    assert!(!contains_token(&allowed, &Token::new("b".to_string())));
    assert!(!contains_token(&[].to_vec(), &Token::new("a".to_string())));
}

#[test]
fn no_header_is_unauthorized() {
    let d = authorize(&tokens(&["a"]), None);
    assert!(matches!(d, AuthDecision::TokenNotProvided));
    assert_eq!(d.refusal_status(), Some(401));
}

#[test]
fn allowed_token_is_let_through() {
    let d = authorize(&tokens(&["x", "secret"]), Some("Bearer secret"));
    match &d {
        AuthDecision::Allowed(t) => assert_eq!(t.value(), "secret"),
        _ => panic!("expected the request to be let through"),
    }
    assert_eq!(d.refusal_status(), None);
}

#[test]
fn other_token_is_forbidden() {
    let d = authorize(&tokens(&["secret"]), Some("Bearer Secret"));
    match &d {
        AuthDecision::PermissionDenied(t) => assert_eq!(t.value(), "Secret"),
        _ => panic!("expected the request to be refused"),
    }
    assert_eq!(d.refusal_status(), Some(403));
    assert!(matches!(authorize(&[].to_vec(), Some("Bearer ")), AuthDecision::PermissionDenied(_)));
}

#[test]
fn more_tokens_refuse_no_more() {
    let h = Some("Bearer b");
    assert!(matches!(authorize(&tokens(&["b"]), h), AuthDecision::Allowed(_)));
    assert!(matches!(authorize(&tokens(&["a", "b", "c"]), h), AuthDecision::Allowed(_)));
}

#[test]
fn require_auth_middleware() {
    let f = RequireAuth::allowed_tokens(tokens(&["k1"]));
    assert_eq!(f.allowed_tokens.len(), 1);
    let m = f.middleware(7u32);
    assert_eq!(*m.service(), 7);
    assert!(matches!(m.check(Some("Bearer k1")), AuthDecision::Allowed(_)));
    assert!(matches!(m.check(Some("Bearer k2")), AuthDecision::PermissionDenied(_)));
    assert!(matches!(m.check(None), AuthDecision::TokenNotProvided));
}

#[test]
fn authenticated_from_request_token() {
    let e = Authenticated::from_request_token(None).err().unwrap();
    assert_eq!((e.code, e.status.as_str(), e.message.as_str()), (500, "error", "Authentication Error"));
    let a = Authenticated::from_request_token(Some(Token::new("u".to_string()))).unwrap();
    assert_eq!(a.value(), "u");
    let t: &Token = &a;
    assert_eq!(t.value(), "u");
}

#[test]
fn refusal_bodies() {
    let e = authorize(&tokens(&["a"]), None).refusal().unwrap();
    assert_eq!(e.code, 401);
    assert_eq!(e.status, "fail");
    assert_eq!(e.message, "You are not logged in, please provide a token");
    let e = authorize(&tokens(&["a"]), Some("Bearer b")).refusal().unwrap();
    assert_eq!(e.code, 403);
    assert_eq!(e.status, "fail");
    assert_eq!(e.message, "You are not allowed to perform this action");
    assert!(authorize(&tokens(&["a"]), Some("Bearer a")).refusal().is_none());
}

#[test]
fn error_response_status_word() {
    assert_eq!(ErrorResponse::new(404, "m").status, "fail");
    assert_eq!(ErrorResponse::new(499, "m").status, "fail");
    assert_eq!(ErrorResponse::new(500, "m").status, "error");
    assert_eq!(ErrorResponse::new(503, "x").message, "x");
}
