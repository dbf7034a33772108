use vstd::prelude::*;

use std::rc::Rc;

use crate::text::{ascii_string, ascii_text, lemma_ascii_text_is_char_for_char};

verus! {

/// A byte that may appear in a header value read as text: visible ASCII or tab.
pub open spec fn is_header_text_byte(b: u8) -> bool {
    (32 <= b && b < 127) || b == 9
}

/// A header value that can be read as text.
pub open spec fn is_header_text(h: Seq<u8>) -> bool {
    forall|i: int| 0 <= i < h.len() ==> is_header_text_byte(#[trigger] h[i])
}

/// ASCII whitespace, as `char::is_whitespace` classifies ASCII characters.
pub open spec fn is_ws(b: u8) -> bool {
    b == 32 || b == 9 || b == 10 || b == 11 || b == 12 || b == 13
}

/// The first position at or after `i` that does not hold whitespace (or the end).
pub open spec fn ws_end(h: Seq<u8>, i: int) -> int
    decreases h.len() - i,
{
    if i < 0 || i >= h.len() || !is_ws(h[i]) {
        i
    } else {
        ws_end(h, i + 1)
    }
}

/// The first position at or after `i` that holds whitespace (or the end).
pub open spec fn word_end(h: Seq<u8>, i: int) -> int
    decreases h.len() - i,
{
    if i < 0 || i >= h.len() || is_ws(h[i]) {
        i
    } else {
        word_end(h, i + 1)
    }
}

pub proof fn lemma_ws_end_bounds(h: Seq<u8>, i: int)
    requires
        0 <= i <= h.len(),
    ensures
        i <= ws_end(h, i) <= h.len(),
        ws_end(h, i) < h.len() ==> !is_ws(h[ws_end(h, i)]),
        forall|k: int| i <= k < ws_end(h, i) ==> is_ws(#[trigger] h[k]),
    decreases h.len() - i,
{
    if i < h.len() && is_ws(h[i]) {
        lemma_ws_end_bounds(h, i + 1);
    }
}

pub proof fn lemma_word_end_bounds(h: Seq<u8>, i: int)
    requires
        0 <= i <= h.len(),
    ensures
        i <= word_end(h, i) <= h.len(),
        word_end(h, i) < h.len() ==> is_ws(h[word_end(h, i)]),
        forall|k: int| i <= k < word_end(h, i) ==> !is_ws(#[trigger] h[k]),
    decreases h.len() - i,
{
    if i < h.len() && !is_ws(h[i]) {
        lemma_word_end_bounds(h, i + 1);
    }
}

/// The whitespace-separated words of `h` from position `i` on: the maximal
/// runs of non-whitespace bytes, in order.
pub open spec fn tokens_from(h: Seq<u8>, i: int) -> Seq<Seq<u8>>
    decreases h.len() - i,
{
    if i < 0 || i > h.len() {
        Seq::empty()
    } else {
        let s = ws_end(h, i);
        if s >= h.len() {
            Seq::empty()
        } else {
            let e = word_end(h, s);
            proof {
                lemma_ws_end_bounds(h, i);
                lemma_word_end_bounds(h, s);
            }
            seq![h.subrange(s, e)] + tokens_from(h, e)
        }
    }
}

/// Every word found from position `i` on is non-empty and free of whitespace.
pub proof fn lemma_tokens_from_are_words(h: Seq<u8>, i: int)
    ensures
        forall|k: int|
            0 <= k < tokens_from(h, i).len() ==> {
                &&& (#[trigger] tokens_from(h, i)[k]).len() > 0
                &&& forall|j: int|
                    0 <= j < tokens_from(h, i)[k].len() ==> !is_ws(tokens_from(h, i)[k][j])
            },
    decreases h.len() - i,
{
    if 0 <= i <= h.len() {
        let s = ws_end(h, i);
        if s < h.len() {
            lemma_ws_end_bounds(h, i);
            let e = word_end(h, s);
            lemma_word_end_bounds(h, s);
            lemma_tokens_from_are_words(h, e);
            let word = h.subrange(s, e);
            assert forall|j: int| 0 <= j < word.len() implies !is_ws(word[j]) by {
                assert(word[j] == h[s + j]);
            }
            assert forall|k: int| 0 <= k < tokens_from(h, i).len() implies {
                &&& (#[trigger] tokens_from(h, i)[k]).len() > 0
                &&& forall|j: int|
                    0 <= j < tokens_from(h, i)[k].len() ==> !is_ws(tokens_from(h, i)[k][j])
            } by {
                if k > 0 {
                    assert(tokens_from(h, i)[k] == tokens_from(h, e)[k - 1]);
                } else {
                    assert(tokens_from(h, i)[k] == word);
                }
            }
        }
    }
}

/// The whitespace-separated words of a header value.
pub open spec fn tokens(h: Seq<u8>) -> Seq<Seq<u8>> {
    tokens_from(h, 0)
}

/// The bytes of the authentication scheme that is accepted.
pub open spec fn bearer_scheme() -> Seq<u8> {
    seq![66u8, 101u8, 97u8, 114u8, 101u8, 114u8]
}

/// The access token carried by an `Authorization` header: the header must be
/// present, its first word (if any) must be `Bearer`, and the token is its
/// second word. Words after the second are ignored.
pub open spec fn spec_bearer_token(header: Option<Seq<u8>>) -> Option<Seq<u8>> {
    match header {
        None => None,
        Some(h) => {
            let ts = tokens(h);
            if ts.len() >= 1 && ts[0] != bearer_scheme() {
                None
            } else if ts.len() >= 2 {
                Some(ts[1])
            } else {
                None
            }
        },
    }
}


/// The optional header value viewed as bytes.
pub open spec fn header_view(header: Option<&[u8]>) -> Option<Seq<u8>> {
    match header {
        Some(h) => Some(h@),
        None => None,
    }
}

/// The answer given to a request that is refused for want of valid credentials.
pub struct Unauthorized {
    pub message: String,
}

fn unauthorized() -> (e: Unauthorized)
    ensures
        e.message@ == "Unauthorized"@,
{
    Unauthorized { message: "Unauthorized".to_owned() }
}

fn is_ws_byte(b: u8) -> (r: bool)
    ensures
        r == is_ws(b),
{
    b == 32 || b == 9 || b == 10 || b == 11 || b == 12 || b == 13
}

fn skip_ws(h: &[u8], i: usize) -> (r: usize)
    requires
        i <= h@.len(),
    ensures
        r == ws_end(h@, i as int),
{
    let mut j = i;
    while j < h.len() && is_ws_byte(h[j])
        invariant
            i <= j <= h@.len(),
            ws_end(h@, j as int) == ws_end(h@, i as int),
        decreases h@.len() - j,
    {
        j = j + 1;
    }
    j
}

fn skip_word(h: &[u8], i: usize) -> (r: usize)
    requires
        i <= h@.len(),
    ensures
        r == word_end(h@, i as int),
{
    let mut j = i;
    while j < h.len() && !is_ws_byte(h[j])
        invariant
            i <= j <= h@.len(),
            word_end(h@, j as int) == word_end(h@, i as int),
        decreases h@.len() - j,
    {
        j = j + 1;
    }
    j
}

fn is_bearer_scheme(h: &[u8], s: usize, e: usize) -> (r: bool)
    requires
        s <= e <= h@.len(),
    ensures
        r == (h@.subrange(s as int, e as int) == bearer_scheme()),
{
    let ghost word = h@.subrange(s as int, e as int);
    if e - s != 6 {
        assert(word.len() != bearer_scheme().len());
        return false;
    }
    let r = h[s] == 66 && h[s + 1] == 101 && h[s + 2] == 97 && h[s + 3] == 114 && h[s + 4] == 101
        && h[s + 5] == 114;
    if r {
        assert(word =~= bearer_scheme());
    } else {
        assert(word != bearer_scheme()) by {
            if word == bearer_scheme() {
                assert(word[0] == 66 && word[1] == 101 && word[2] == 97);
                assert(word[3] == 114 && word[4] == 101 && word[5] == 114);
            }
        }
    }
    r
}

/// Reads the access token out of an `Authorization` header value.
/// A missing header, a first word other than `Bearer`, or a missing second
/// word is refused as unauthorized.
pub fn bearer_token(header: Option<&[u8]>) -> (r: Result<String, Unauthorized>)
    requires
        header matches Some(h) ==> is_header_text(h@),
    ensures
        match spec_bearer_token(header_view(header)) {
            Some(t) => r matches Ok(token) && token@ == ascii_text(t),
            None => r matches Err(e) && e.message@ == "Unauthorized"@,
        },
        r matches Ok(token) ==> token@.len() > 0,
        match (spec_bearer_token(header_view(header)), r) {
            (Some(t), Ok(token)) => token@.len() == t.len() && forall|i: int|
                0 <= i < t.len() ==> #[trigger] token@[i] == t[i] as char,
            _ => true,
        },
{
    match header {
        None => Err(unauthorized()),
        Some(h) => {
            let ghost hv = h@;
            let s0 = skip_ws(h, 0);
            proof {
                lemma_ws_end_bounds(hv, 0);
            }
            if s0 >= h.len() {
                assert(tokens(hv) =~= Seq::<Seq<u8>>::empty());
                return Err(unauthorized());
            }
            let e0 = skip_word(h, s0);
            proof {
                lemma_word_end_bounds(hv, s0 as int);
                assert(tokens(hv) == seq![hv.subrange(s0 as int, e0 as int)] + tokens_from(hv, e0 as int));
            }
            if !is_bearer_scheme(h, s0, e0) {
                return Err(unauthorized());
            }
            let s1 = skip_ws(h, e0);
            proof {
                lemma_ws_end_bounds(hv, e0 as int);
            }
            if s1 >= h.len() {
                assert(tokens_from(hv, e0 as int) =~= Seq::<Seq<u8>>::empty());
                assert(tokens(hv).len() == 1);
                return Err(unauthorized());
            }
            let e1 = skip_word(h, s1);
            proof {
                lemma_word_end_bounds(hv, s1 as int);
                assert(tokens_from(hv, e0 as int) == seq![hv.subrange(s1 as int, e1 as int)]
                    + tokens_from(hv, e1 as int));
                assert(tokens(hv)[1] == hv.subrange(s1 as int, e1 as int));
                assert forall|i: int| s1 <= i < e1 implies hv[i] < 128 by {
                    assert(is_header_text_byte(hv[i]));
                }
                lemma_tokens_from_are_words(hv, 0);
                assert(tokens(hv)[1].len() > 0);
                lemma_ascii_text_is_char_for_char(tokens(hv)[1]);
            }
            Ok(ascii_string(h, s1, e1))
        },
    }
}


proof fn lemma_word_end_at(h: Seq<u8>, i: int, j: int)
    requires
        0 <= i <= j <= h.len(),
        forall|k: int| i <= k < j ==> !is_ws(#[trigger] h[k]),
        j == h.len() || is_ws(h[j]),
    ensures
        word_end(h, i) == j,
    decreases j - i,
{
    if i < j {
        lemma_word_end_at(h, i + 1, j);
    }
}

/// A word that could be sent as a bearer token: non-empty header text
/// without whitespace.
pub open spec fn is_token_word(t: Seq<u8>) -> bool {
    &&& t.len() > 0
    &&& is_header_text(t)
    &&& forall|k: int| 0 <= k < t.len() ==> !is_ws(#[trigger] t[k])
}

/// Reading back a header written as `Bearer <token>` gives the token.
pub proof fn lemma_bearer_header_gives_token(t: Seq<u8>)
    requires
        is_token_word(t),
    ensures
        spec_bearer_token(Some(bearer_scheme() + seq![32u8] + t)) == Some(t),
{
    let h = bearer_scheme() + seq![32u8] + t;
    let n = h.len() as int;
    assert(h[0] == 66u8);
    assert(ws_end(h, 0) == 0);
    assert forall|k: int| 0 <= k < 6 implies !is_ws(#[trigger] h[k]) by {
        assert(h[k] == bearer_scheme()[k]);
    }
    assert(h[6] == 32u8);
    lemma_word_end_at(h, 0, 6);
    assert(h.subrange(0, 6) =~= bearer_scheme());
    assert(h[7] == t[0]);
    assert(ws_end(h, 7) == 7);
    assert(ws_end(h, 6) == 7);
    assert forall|k: int| 7 <= k < n implies !is_ws(#[trigger] h[k]) by {
        assert(h[k] == t[k - 7]);
    }
    lemma_word_end_at(h, 7, n);
    assert(h.subrange(7, n) =~= t);
    assert(tokens_from(h, n) =~= Seq::<Seq<u8>>::empty()) by {
        assert(ws_end(h, n) == n);
    }
    assert(tokens_from(h, 6) == seq![t] + tokens_from(h, n));
    assert(tokens(h) == seq![bearer_scheme()] + tokens_from(h, 6));
}


/// The signed-in user on whose behalf a request is made.
pub struct AuthUser {
    pub local_id: String,
    pub display_name: Option<String>,
    pub email: Option<String>,
    pub photo_url: Option<String>,
}

/// What the authentication layer hands to a handler.
pub struct AuthData {
    pub user: AuthUser,
}

impl AuthData {
    /// A handler's authentication: the data the middleware left on the
    /// request, or a refusal reading `not authorized` when there is none.
    pub fn from_request(found: Option<AuthData>) -> (r: Result<AuthData, Unauthorized>)
        ensures
            match found {
                Some(data) => r == Ok::<AuthData, Unauthorized>(data),
                None => r matches Err(e) && e.message@ == "not authorized"@,
            },
    {
        match found {
            Some(data) => Ok(data),
            None => Err(Unauthorized { message: "not authorized".to_owned() }),
        }
    }
}

/// Builds the authentication middleware around a service.
pub struct AuthnMiddlewareFactory;

/// The authentication middleware: requests reach `service` only with a
/// valid bearer token.
pub struct AuthnMiddleware<S> {
    service: Rc<S>,
}

impl AuthnMiddlewareFactory {
    /// Wraps `service` in the middleware.
    pub fn new_transform<S>(&self, service: S) -> (m: AuthnMiddleware<S>)
        ensures
            m.service() == service,
    {
        AuthnMiddleware { service: Rc::new(service) }
    }
}

impl<S> AuthnMiddleware<S> {
    /// The service the middleware guards.
    pub closed spec fn service(&self) -> S {
        *self.service
    }

    /// The shared handle on the guarded service.
    pub fn service_handle(&self) -> (s: &Rc<S>)
        ensures
            **s == self.service(),
    {
        &self.service
    }

    /// The access token a request carries: see `bearer_token`.
    pub fn access_token(&self, header: Option<&[u8]>) -> (r: Result<String, Unauthorized>)
        requires
            header matches Some(h) ==> is_header_text(h@),
        ensures
            match spec_bearer_token(header_view(header)) {
                Some(t) => r matches Ok(token) && token@ == ascii_text(t),
                None => r matches Err(e) && e.message@ == "Unauthorized"@,
            },
            r matches Ok(token) ==> token@.len() > 0,
    {
        bearer_token(header)
    }

    /// The outcome of looking the token's user up: the user becomes the
    /// request's authentication data; a failed lookup is refused as
    /// unauthorized.
    pub fn on_user_info(&self, lookup: Result<AuthUser, String>) -> (r: Result<AuthData, Unauthorized>)
        ensures
            match lookup {
                Ok(user) => r == Ok::<AuthData, Unauthorized>(AuthData { user }),
                Err(_) => r matches Err(e) && e.message@ == "Unauthorized"@,
            },
    {
        match lookup {
            Ok(user) => Ok(AuthData { user }),
            Err(_) => Err(unauthorized()),
        }
    }
}

} // verus!
