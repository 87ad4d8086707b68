//! Authentication of requests by a bearer token.

use vstd::prelude::*;
use vstd::utf8::{
    decode_utf8, encode_utf8, encode_utf8_decode_utf8, encode_utf8_first_scalar,
    encode_utf8_valid_utf8, encode_scalar, is_char_boundary, length_of_first_scalar, pop_first_scalar,
};

use std::rc::Rc;

use crate::response::{status_word, ErrorResponse};

verus! {

/// An authentication token.
#[derive(Debug, Clone)]
pub struct Token {
    value: String,
}

impl View for Token {
    type V = Seq<char>;

    closed spec fn view(&self) -> Seq<char> {
        self.value@
    }
}

impl PartialEq for Token {
    fn eq(&self, other: &Token) -> (r: bool) {
        self.value == other.value
    }
}

impl vstd::std_specs::cmp::PartialEqSpecImpl for Token {
    open spec fn obeys_eq_spec() -> bool {
        true
    }

    open spec fn eq_spec(&self, other: &Token) -> bool {
        self@ == other@
    }
}

impl Token {
    /// A token with the given text.
    pub fn new(value: String) -> (t: Token)
        ensures
            t@ == value@,
    {
        Token { value: value.clone() }
    }

    /// The token's text.
    pub fn value(&self) -> (v: &str)
        ensures
            v@ == self@,
    {
        self.value.as_str()
    }
}


/// The token that a header value carries: the value without its first seven
/// bytes (the length of `Bearer `).
pub open spec fn bearer_token(header: Seq<char>) -> Seq<char> {
    decode_utf8(encode_utf8(header).subrange(7, encode_utf8(header).len() as int))
}

/// `t` is the text of one of the `allowed` tokens.
pub open spec fn token_allowed(allowed: Seq<Token>, t: Seq<char>) -> bool {
    exists|i: int| 0 <= i < allowed.len() && #[trigger] allowed[i]@ == t
}

/// A header value can be split after its first seven bytes.
pub open spec fn header_splits(header: Seq<char>) -> bool {
    is_char_boundary(encode_utf8(header), 7)
}

/// What the middleware does with a request.
#[derive(Debug, Clone)]
pub enum AuthDecision {
    /// The request has no `Authorization` header: it is answered 401.
    TokenNotProvided,
    /// The request's token is not one of the allowed tokens: it is answered 403.
    PermissionDenied(Token),
    /// The request's token is allowed: the token is attached to the request,
    /// which goes on to the wrapped service.
    Allowed(Token),
}

/// `d` is the decision for a request with the header value `header` when
/// `allowed` are the allowed tokens.
pub open spec fn decides(allowed: Seq<Token>, header: Option<Seq<char>>, d: AuthDecision) -> bool {
    match header {
        None => d is TokenNotProvided,
        Some(h) => {
            let t = bearer_token(h);
            if token_allowed(allowed, t) {
                d matches AuthDecision::Allowed(tok) && tok@ == t
            } else {
                d matches AuthDecision::PermissionDenied(tok) && tok@ == t
            }
        },
    }
}

/// The HTTP status with which a request is refused: 401 without a token, 403
/// with a token that is not allowed, and none for a request let through.
pub open spec fn refusal_status(d: AuthDecision) -> Option<u16> {
    match d {
        AuthDecision::TokenNotProvided => Some(401),
        AuthDecision::PermissionDenied(_) => Some(403),
        AuthDecision::Allowed(_) => None,
    }
}

/// The message with which a request is refused.
pub open spec fn refusal_message(d: AuthDecision) -> Seq<char> {
    match d {
        AuthDecision::TokenNotProvided => "You are not logged in, please provide a token"@,
        _ => "You are not allowed to perform this action"@,
    }
}

/// The message when a handler asks for the token of a request to which the
/// middleware attached none.
pub open spec fn authentication_error_message() -> Seq<char> {
    "Authentication Error"@
}

impl AuthDecision {
    /// The body with which the request is refused, if it is: 401 or 403,
    /// status `fail`, and the refusal's message.
    pub fn refusal(&self) -> (r: Option<ErrorResponse>)
        ensures
            match refusal_status(*self) {
                None => r is None,
                Some(c) => r matches Some(e) && e.code == c && e.status@ == status_word(c)
                    && e.message@ == refusal_message(*self),
            },
            match *self {
                AuthDecision::Allowed(_) => r is None,
                AuthDecision::TokenNotProvided => r matches Some(e) && e.code == 401 && e.message@
                    == "You are not logged in, please provide a token"@,
                AuthDecision::PermissionDenied(_) => r matches Some(e) && e.code == 403
                    && e.message@ == "You are not allowed to perform this action"@,
            },
    {
        match self {
            AuthDecision::TokenNotProvided => Some(
                ErrorResponse::new(401, "You are not logged in, please provide a token"),
            ),
            AuthDecision::PermissionDenied(_) => Some(
                ErrorResponse::new(403, "You are not allowed to perform this action"),
            ),
            AuthDecision::Allowed(_) => None,
        }
    }

    /// The HTTP status with which the request is refused, if it is.
    pub fn refusal_status(&self) -> (s: Option<u16>)
        ensures
            s == refusal_status(*self),
            s is None <==> *self is Allowed,
            s == Some(401u16) <==> *self is TokenNotProvided,
            s == Some(403u16) <==> *self is PermissionDenied,
    {
        match self {
            AuthDecision::TokenNotProvided => Some(401),
            AuthDecision::PermissionDenied(_) => Some(403),
            AuthDecision::Allowed(_) => None,
        }
    }
}

/// The token a header value carries.
pub fn token_from_header(header: &str) -> (t: Token)
    requires
        header_splits(header@),
    ensures
        t@ == bearer_token(header@),
{
    let (_, rest) = header.split_at(7);
    proof {
        encode_utf8_decode_utf8(rest@);
    }
    Token::new(rest.to_owned())
}

/// Whether `t` is one of `allowed`.
pub fn contains_token(allowed: &Vec<Token>, t: &Token) -> (r: bool)
    ensures
        r == token_allowed(allowed@, t@),
        r == exists|i: int| 0 <= i < allowed@.len() && #[trigger] allowed@[i]@ == t@,
{
    let n = allowed.len();
    for i in 0..n
        invariant
            n == allowed@.len(),
            forall|k: int| 0 <= k < i ==> allowed@[k]@ != t@,
    {
        if allowed[i] == *t {
            assert(allowed@[i as int]@ == t@);
            return true;
        }
    }
    false
}

/// Decides what becomes of a request whose `Authorization` header is `header`
/// (its text, when it has one), given the allowed tokens.
pub fn authorize(allowed: &Vec<Token>, header: Option<&str>) -> (d: AuthDecision)
    requires
        header matches Some(h) ==> header_splits(h@),
    ensures
        decides(allowed@, match header { Some(h) => Some(h@), None => None }, d),
        header is None <==> d is TokenNotProvided,
        header matches Some(h) ==> (d is Allowed <==> exists|i: int|
            0 <= i < allowed@.len() && #[trigger] allowed@[i]@ == bearer_token(h@)),
{
    match header {
        None => AuthDecision::TokenNotProvided,
        Some(h) => {
            let token = token_from_header(h);
            if contains_token(allowed, &token) {
                AuthDecision::Allowed(token)
            } else {
                AuthDecision::PermissionDenied(token)
            }
        },
    }
}

/// The token of an authenticated request.
pub struct Authenticated(Token);

impl View for Authenticated {
    type V = Seq<char>;

    closed spec fn view(&self) -> Seq<char> {
        self.0@
    }
}

impl Authenticated {
    /// The authentication of a request to which the middleware attached
    /// `value`; when it attached no token, the request is refused with 500.
    pub fn from_request_token(value: Option<Token>) -> (r: Result<Authenticated, ErrorResponse>)
        ensures
            match value {
                Some(t) => r matches Ok(a) && a@ == t@,
                None => r matches Err(e) && e.code == 500 && e.status@ == status_word(500)
                    && e.message@ == authentication_error_message(),
            },
    {
        match value {
            Some(user) => Ok(Authenticated(user)),
            None => Err(ErrorResponse::new(500, "Authentication Error")),
        }
    }
}

impl std::ops::Deref for Authenticated {
    type Target = Token;

    fn deref(&self) -> (t: &Token)
        ensures
            t@ == self@,
    {
        &self.0
    }
}

/// The middleware factory: it lets through requests that carry one of
/// `allowed_tokens`.
pub struct RequireAuth {
    pub allowed_tokens: Rc<Vec<Token>>,
}

/// Calls `Rc::clone`, which returns a new pointer to the same allocation: the
/// contract claims that the value pointed to is the same.
#[verifier::external_body]
fn rc_share<T>(rc: &Rc<T>) -> (r: Rc<T>)
    ensures
        r == *rc,
{
    Rc::clone(rc)
}

impl RequireAuth {
    /// A factory that allows exactly `allowed_tokens`.
    pub fn allowed_tokens(allowed_tokens: Vec<Token>) -> (r: RequireAuth)
        ensures
            r.allowed_tokens@ == allowed_tokens@,
    {
        RequireAuth { allowed_tokens: Rc::new(allowed_tokens) }
    }

    /// The middleware that wraps `service` and allows this factory's tokens.
    pub fn middleware<S>(&self, service: S) -> (m: AuthMiddleware<S>)
        ensures
            m.allowed_tokens() == self.allowed_tokens@,
            m.wrapped() == service,
    {
        AuthMiddleware { service: Rc::new(service), allowed_tokens: rc_share(&self.allowed_tokens) }
    }
}

/// The middleware that checks the token of each request before it reaches
/// the wrapped service.
pub struct AuthMiddleware<S> {
    service: Rc<S>,
    allowed_tokens: Rc<Vec<Token>>,
}

impl<S> AuthMiddleware<S> {
    /// The tokens the middleware lets through.
    pub closed spec fn allowed_tokens(&self) -> Seq<Token> {
        self.allowed_tokens@
    }

    /// The wrapped service.
    pub closed spec fn wrapped(&self) -> S {
        *self.service
    }

    /// The wrapped service, shared.
    pub fn service(&self) -> (s: Rc<S>)
        ensures
            *s == self.wrapped(),
    {
        rc_share(&self.service)
    }

    /// Decides what becomes of a request whose `Authorization` header is
    /// `header`.
    pub fn check(&self, header: Option<&str>) -> (d: AuthDecision)
        requires
            header matches Some(h) ==> header_splits(h@),
        ensures
            decides(self.allowed_tokens(), match header { Some(h) => Some(h@), None => None }, d),
    {
        authorize(&self.allowed_tokens, header)
    }
}

} // verus!

verus! {

/// The UTF-8 encoding of two texts one after the other is the encoding of the
/// first followed by that of the second.
pub proof fn lemma_encode_utf8_append(a: Seq<char>, b: Seq<char>)
    ensures
        encode_utf8(a + b) == encode_utf8(a) + encode_utf8(b),
    decreases a.len(),
{
    if a.len() == 0 {
        assert(a + b =~= b);
        assert(encode_utf8(a) + encode_utf8(b) =~= encode_utf8(b));
    } else {
        lemma_encode_utf8_append(a.drop_first(), b);
        assert((a + b).drop_first() =~= a.drop_first() + b);
        assert((a + b)[0] == a[0]);
        assert(encode_utf8(a + b) =~= encode_utf8(a) + encode_utf8(b));
    }
}

/// The end of the encoding of `a` is a character boundary of the encoding of
/// `a` followed by `b`.
proof fn lemma_boundary_after(a: Seq<char>, b: Seq<char>)
    ensures
        is_char_boundary(encode_utf8(a + b), encode_utf8(a).len() as int),
    decreases a.len(),
{
    encode_utf8_valid_utf8(a + b);
    if a.len() > 0 {
        let bytes = encode_utf8(a + b);
        lemma_encode_utf8_append(a, b);
        lemma_encode_utf8_append(a.drop_first(), b);
        assert((a + b).drop_first() =~= a.drop_first() + b);
        assert((a + b)[0] == a[0]);
        encode_utf8_first_scalar(a + b);
        encode_utf8_valid_utf8(a + b);
        assert(pop_first_scalar(bytes) =~= encode_utf8(a.drop_first() + b));
        assert(length_of_first_scalar(bytes) + encode_utf8(a.drop_first()).len() == encode_utf8(
            a,
        ).len());
        lemma_boundary_after(a.drop_first(), b);
        assert(encode_scalar(a[0] as u32).len() >= 1);
        assert(encode_utf8(a).len() > 0);
        assert(bytes.len() >= encode_utf8(a).len());
    }
}

/// A header value made of a prefix of seven bytes, such as `Bearer `,
/// followed by a token's text can be split, and the token it carries is that
/// text.
pub proof fn law_header_carries_token(prefix: Seq<char>, t: Seq<char>)
    requires
        encode_utf8(prefix).len() == 7,
    ensures
        header_splits(prefix + t),
        bearer_token(prefix + t) == t,
{
    lemma_boundary_after(prefix, t);
    lemma_encode_utf8_append(prefix, t);
    let bytes = encode_utf8(prefix + t);
    assert(bytes.subrange(7, bytes.len() as int) =~= encode_utf8(t));
    encode_utf8_decode_utf8(t);
}

/// A request whose header is a seven-byte prefix followed by a token's text is
/// let through, with that token, exactly when the token is one of the allowed
/// ones; otherwise it is refused with 403.
pub proof fn law_let_through_iff_allowed(
    allowed: Seq<Token>,
    prefix: Seq<char>,
    t: Seq<char>,
    d: AuthDecision,
)
    requires
        encode_utf8(prefix).len() == 7,
        decides(allowed, Some(prefix + t), d),
    ensures
        token_allowed(allowed, t) ==> (d matches AuthDecision::Allowed(tok) && tok@ == t),
        !token_allowed(allowed, t) ==> refusal_status(d) == Some(403u16),
{
    law_header_carries_token(prefix, t);
}

/// A request without a token is refused with 401, whatever tokens are allowed.
pub proof fn law_no_token_unauthorized(allowed: Seq<Token>, d: AuthDecision)
    requires
        decides(allowed, None, d),
    ensures
        refusal_status(d) == Some(401u16),
{
}

/// Allowing more tokens refuses no request that was let through, and lets it
/// through with the same token.
pub proof fn law_more_tokens_refuse_no_more(
    fewer: Seq<Token>,
    more: Seq<Token>,
    header: Option<Seq<char>>,
    d1: AuthDecision,
    d2: AuthDecision,
)
    requires
        forall|t: Seq<char>| token_allowed(fewer, t) ==> token_allowed(more, t),
        decides(fewer, header, d1),
        decides(more, header, d2),
    ensures
        d1 matches AuthDecision::Allowed(t1) ==> (d2 matches AuthDecision::Allowed(t2) && t1@
            == t2@),
{
}

} // verus!

verus! {

/// Each allowed token is allowed, and only the allowed tokens are, whatever
/// their text.
pub proof fn law_allowed_tokens_are_exactly_the_list(allowed: Seq<Token>, t: Seq<char>)
    ensures
        forall|i: int| 0 <= i < allowed.len() ==> token_allowed(allowed, #[trigger] allowed[i]@),
        token_allowed(allowed, t) <==> exists|i: int| 0 <= i < allowed.len() && #[trigger] allowed[i]@ == t,
{
    assert forall|i: int| 0 <= i < allowed.len() implies token_allowed(allowed, #[trigger] allowed[i]@) by {
        assert(allowed[i]@ == allowed[i]@);
    }
}

/// A request whose header carries the text of one of the allowed tokens is let
/// through with that token and not refused; a request that is let through
/// carries the text of one of the allowed tokens.
pub proof fn law_listed_token_let_through(
    allowed: Seq<Token>,
    header: Seq<char>,
    i: int,
    d: AuthDecision,
)
    requires
        decides(allowed, Some(header), d),
        0 <= i < allowed.len(),
        allowed[i]@ == bearer_token(header),
    ensures
        d matches AuthDecision::Allowed(tok) && tok@ == allowed[i]@,
        refusal_status(d) is None,
{
    law_allowed_tokens_are_exactly_the_list(allowed, bearer_token(header));
}

/// A request is let through only with the text of one of the allowed tokens.
pub proof fn law_let_through_only_listed(allowed: Seq<Token>, header: Option<Seq<char>>, d: AuthDecision)
    requires
        decides(allowed, header, d),
        d is Allowed,
    ensures
        exists|i: int| 0 <= i < allowed.len() && #[trigger] allowed[i]@ == d->Allowed_0@,
{
}

/// A decision that lets the request through refuses it with no status; a
/// refusal with 403 is a token that is not allowed, and one with 401 is a
/// missing token.
pub proof fn law_refusal_matches_decision(d: AuthDecision)
    ensures
        d is Allowed <==> refusal_status(d) is None,
        d is PermissionDenied <==> refusal_status(d) == Some(403u16),
        d is TokenNotProvided <==> refusal_status(d) == Some(401u16),
{
}

} // verus!
