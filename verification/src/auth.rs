//! The `Authorization` header: which token a request presents for decoding.
//!
//! A request is authenticated by an `Authorization` header of the form
//! `Bearer <token>`. A header without that prefix is not rejected outright:
//! a fixed token that is not shaped like a JSON web token is decoded in its
//! place, and decoding it fails.
use vstd::prelude::*;
use vstd::string::*;

verus! {

/// Why a request carries no usable credentials; it is answered with
/// status 401 (Unauthorized).
#[derive(Debug, Clone, Copy, PartialEq, Eq, Structural)]
pub enum AuthFailure {
    Unauthorized,
}

/// The prefix of an `Authorization` header that carries a bearer token.
pub open spec fn bearer_prefix() -> Seq<char> {
    seq!['B', 'e', 'a', 'r', 'e', 'r', ' ']
}

/// The token after the `Bearer ` prefix, if the header has that prefix.
pub open spec fn spec_bearer_token(header: Seq<char>) -> Option<Seq<char>> {
    if header.len() >= bearer_prefix().len() && header.subrange(0, bearer_prefix().len() as int)
        == bearer_prefix() {
        Some(header.subrange(bearer_prefix().len() as int, header.len() as int))
    } else {
        None
    }
}

/// The token after the `Bearer ` prefix of `header`, or `None` where the
/// header does not start with that prefix.
pub fn bearer_token(header: &str) -> (r: Option<&str>)
    ensures
        r is Some <==> spec_bearer_token(header@) is Some,
        r matches Some(t) ==> t@ == spec_bearer_token(header@)->0,
{
    let prefix: [char; 7] = ['B', 'e', 'a', 'r', 'e', 'r', ' '];
    let n: usize = header.unicode_len();
    if n < 7 {
        return None;
    }
    let mut i: usize = 0;
    while i < 7
        invariant
            0 <= i <= 7,
            n == header@.len(),
            n >= 7,
            prefix@ == bearer_prefix(),
            forall|j: int| 0 <= j < i ==> header@[j] == bearer_prefix()[j],
        decreases 7 - i,
    {
        if header.get_char(i) != prefix[i] {
            assert(header@.subrange(0, 7)[i as int] != bearer_prefix()[i as int]);
            return None;
        }
        i = i + 1;
    }
    assert(header@.subrange(0, 7) =~= bearer_prefix());
    Some(header.substring_char(7, n))
}

/// The token that stands in for a missing bearer token.
pub open spec fn spec_fallback_token() -> Seq<char> {
    "this_is_a_legit_jwt_trust_me_bro"@
}

/// The token that is decoded when the header carries no bearer token.
pub fn fallback_token() -> (t: &'static str)
    ensures
        t@ == spec_fallback_token(),
{
    "this_is_a_legit_jwt_trust_me_bro"
}

/// The token that a request presents: `Err` where it has no `Authorization`
/// header; the bearer token where the header carries one; the fallback token
/// otherwise.
pub fn authorization_token<'a>(header: Option<&'a str>) -> (r: Result<&'a str, AuthFailure>)
    ensures
        header is None ==> r == Err::<&str, AuthFailure>(AuthFailure::Unauthorized),
        header matches Some(h) ==> (r matches Ok(t) && t@ == (match spec_bearer_token(h@) {
            Some(tok) => tok,
            None => spec_fallback_token(),
        })),
{
    match header {
        None => Err(AuthFailure::Unauthorized),
        Some(h) => match bearer_token(h) {
            Some(t) => Ok(t),
            None => Ok(fallback_token()),
        },
    }
}

/// A header made of the `Bearer ` prefix and a token presents that token.
pub proof fn law_bearer_header_presents_its_token(token: Seq<char>)
    ensures
        spec_bearer_token(bearer_prefix() + token) == Some(token),
{
    let h = bearer_prefix() + token;
    assert(h.subrange(0, 7) =~= bearer_prefix());
    assert(h.subrange(7, h.len() as int) =~= token);
}

/// A JSON web token is three parts joined by dots; the fallback token holds
/// no dot, so it can never be decoded into claims.
pub proof fn law_fallback_token_is_not_a_jwt()
    ensures
        !spec_fallback_token().contains('.'),
{
    reveal_strlit("this_is_a_legit_jwt_trust_me_bro");
    let s = spec_fallback_token();
    assert forall|i: int| 0 <= i < s.len() implies s[i] != '.' by {
        reveal_strlit("this_is_a_legit_jwt_trust_me_bro");
    }
}

} // verus!
