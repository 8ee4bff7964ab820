//! How a request proves who sends it: an `Authorization: Bearer <token>` header.
use vstd::prelude::*;
use crate::auth::claims::Claims;
use crate::auth::jwt::{
    accepted_at, rs256_signature_valid, token_claims, token_expiry, token_issuer, JwtService,
};
use crate::error::ApiError;
use crate::text::{chars_of, string_of};

verus! {

/// The caller of a request, by the claims of its token.
#[derive(Debug, Clone)]
pub struct AuthUser(pub Claims);

/// `Bearer ` followed by a space.
pub open spec fn bearer_prefix() -> Seq<char> {
    seq!['B', 'e', 'a', 'r', 'e', 'r', ' ']
}

/// The token of an `Authorization` header: what follows `Bearer `, when the header
/// starts so.
pub open spec fn bearer_token_of(header: Seq<char>) -> Option<Seq<char>> {
    if header.len() >= 7 && header.take(7) == bearer_prefix() {
        Some(header.skip(7))
    } else {
        None
    }
}

/// The token of an `Authorization` header. A request without the header (or with one
/// that is not visible text), or whose header does not start with `Bearer `, is
/// `Unauthorized`.
pub fn bearer_token(header: Option<&str>) -> (r: Result<String, ApiError>)
    ensures
        header is None ==> r matches Err(ApiError::Unauthorized),
        header matches Some(h) ==> match bearer_token_of(h@) {
            Some(t) => r matches Ok(s) && s@ == t,
            None => r matches Err(ApiError::Unauthorized),
        },
{
    match header {
        None => Err(ApiError::Unauthorized),
        Some(h) => {
            let cs = chars_of(h);
            if cs.len() >= 7 && cs[0] == 'B' && cs[1] == 'e' && cs[2] == 'a' && cs[3] == 'r' && cs[4]
                == 'e' && cs[5] == 'r' && cs[6] == ' ' {
                assert(cs@.take(7) =~= bearer_prefix());
                let mut token: Vec<char> = Vec::new();
                let mut i: usize = 7;
                while i < cs.len()
                    invariant
                        7 <= i <= cs@.len(),
                        token@ == cs@.subrange(7, i as int),
                    decreases cs@.len() - i,
                {
                    token.push(cs[i]);
                    i = i + 1;
                }
                assert(token@ =~= cs@.skip(7));
                Ok(string_of(&token))
            } else {
                assert(cs@.len() >= 7 ==> cs@.take(7) != bearer_prefix()) by {
                    if cs@.len() >= 7 && cs@.take(7) == bearer_prefix() {
                        assert(cs@[0] == cs@.take(7)[0]);
                        assert(cs@[1] == cs@.take(7)[1]);
                        assert(cs@[2] == cs@.take(7)[2]);
                        assert(cs@[3] == cs@.take(7)[3]);
                        assert(cs@[4] == cs@.take(7)[4]);
                        assert(cs@[5] == cs@.take(7)[5]);
                        assert(cs@[6] == cs@.take(7)[6]);
                    }
                }
                Err(ApiError::Unauthorized)
            }
        },
    }
}

/// Authenticates a request by its `Authorization` header: gives the claims of its bearer
/// token as JSON text, which the service checked. A missing header, a header that is not
/// a bearer token, and a token that fails its checks are each `Unauthorized`.
pub fn authenticate(jwt: &JwtService, header: Option<&str>) -> (r: Result<String, ApiError>)
    ensures
        header is None ==> r matches Err(ApiError::Unauthorized),
        header matches Some(h) && bearer_token_of(h@) is None ==> r matches Err(
            ApiError::Unauthorized,
        ),
        r matches Err(e) ==> e matches ApiError::Unauthorized,
        header matches Some(h) ==> (bearer_token_of(h@) matches Some(t) ==> ((forall|now: u64|
            #[trigger] accepted_at(t, jwt.key_pem(), jwt.token_validation(), now)) ==> (r matches Ok(
            c,
        ) && c@ == token_claims(t)))),
        r matches Ok(c) ==> (header matches Some(h) && bearer_token_of(h@) matches Some(t)
            && c@ == token_claims(t) && rs256_signature_valid(t, jwt.key_pem()) && token_expiry(
            t,
        ) is Some && (jwt.checks().issuer matches Some(want) ==> (token_issuer(t) matches Some(i)
            ==> i == want@)) && (exists|now: u64| #[trigger]
            accepted_at(t, jwt.key_pem(), jwt.token_validation(), now) && (jwt.checks().validate_exp
                ==> (token_expiry(t) matches Some(e) ==> e + 60 >= now)))),
{
    let token = bearer_token(header)?;
    match jwt.validate(token.as_str()) {
        Ok(claims) => Ok(claims),
        Err(_) => Err(ApiError::Unauthorized),
    }
}

/// A header made of `Bearer ` and a token gives back exactly that token.
pub proof fn lemma_bearer_round_trip(token: Seq<char>)
    ensures
        bearer_token_of(bearer_prefix() + token) == Some(token),
{
    assert((bearer_prefix() + token).take(7) =~= bearer_prefix());
    assert((bearer_prefix() + token).skip(7) =~= token);
}

} // verus!
