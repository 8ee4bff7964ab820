//! The decisions of the guard in front of protected routes. Its steps, in order: read the
//! bearer token, check it (RS256, fixed issuer, expiry), look its session up, and pass the
//! request on with the token's claims.
use vstd::prelude::*;
use crate::auth::extractor::{bearer_token, bearer_token_of};
use crate::auth::jwt::{
    accepted_at, rs256_signature_valid, token_claims, token_expiry, token_issuer, JwtService,
    JwtSettings,
};

verus! {

/// The issuer that the guard requires of tokens.
pub const GUARD_ISSUER: &'static str = "https://example.com/issuer";

/// Unauthorized.
pub const STATUS_UNAUTHORIZED: u16 = 401;

/// Internal server error.
pub const STATUS_INTERNAL_ERROR: u16 = 500;

/// The checks the guard applies to tokens: expiry, and the fixed issuer.
pub fn guard_settings() -> (s: JwtSettings)
    ensures
        s.validate_exp,
        s.issuer matches Some(i) && i@ == GUARD_ISSUER@,
{
    JwtSettings { validate_exp: true, issuer: Some(String::from_str(GUARD_ISSUER)) }
}

/// The token of a request at the guard; without a bearer token the answer is 401.
pub fn guard_token(header: Option<&str>) -> (r: Result<String, u16>)
    ensures
        header is None ==> r == Err::<String, u16>(STATUS_UNAUTHORIZED),
        header matches Some(h) ==> match bearer_token_of(h@) {
            Some(t) => r matches Ok(s) && s@ == t,
            None => r == Err::<String, u16>(STATUS_UNAUTHORIZED),
        },
{
    match bearer_token(header) {
        Ok(token) => Ok(token),
        Err(_) => Err(STATUS_UNAUTHORIZED),
    }
}

/// The guard's first two steps: the bearer token of a request and the claims that `jwt`
/// checked for it. Without a bearer token, or with a token that fails its checks, the
/// answer is 401. The token given back is the one whose session is then looked up, and
/// the claims given back are that token's.
pub fn guard_claims(jwt: &JwtService, header: Option<&str>) -> (r: Result<(String, String), u16>)
    ensures
        header is None ==> r == Err::<(String, String), u16>(STATUS_UNAUTHORIZED),
        header matches Some(h) && bearer_token_of(h@) is None ==> r == Err::<(String, String), u16>(
            STATUS_UNAUTHORIZED,
        ),
        r matches Err(e) ==> e == STATUS_UNAUTHORIZED,
        header matches Some(h) ==> (bearer_token_of(h@) matches Some(t) ==> ((forall|now: u64|
            #[trigger] accepted_at(t, jwt.key_pem(), jwt.token_validation(), now)) ==> (r matches Ok(
            (tk, c),
        ) && tk@ == t && c@ == token_claims(t)))),
        r matches Ok((t, c)) ==> (header matches Some(h) && bearer_token_of(h@) == Some(t@)
            && c@ == token_claims(t@) && rs256_signature_valid(t@, jwt.key_pem()) && token_expiry(
            t@,
        ) is Some && (jwt.checks().issuer matches Some(want) ==> (token_issuer(t@) matches Some(i)
            ==> i == want@)) && (exists|now: u64| #[trigger]
            accepted_at(t@, jwt.key_pem(), jwt.token_validation(), now) && (jwt.checks().validate_exp
                ==> (token_expiry(t@) matches Some(e) ==> e + 60 >= now)))),
{
    let token = guard_token(header)?;
    match jwt.validate(token.as_str()) {
        Ok(claims) => Ok((token, claims)),
        Err(_) => Err(token_rejected()),
    }
}

/// What the session store answered for a token.
pub enum SessionLookup {
    /// The store failed.
    Failed,
    /// There is no session for the token.
    Missing,
    /// There is a live session.
    Found,
}

/// The guard's answer to a session lookup: a failing store is 500, a missing session 401,
/// a live session lets the request through.
pub fn session_decision(lookup: SessionLookup) -> (r: Result<(), u16>)
    ensures
        lookup is Failed ==> r == Err::<(), u16>(STATUS_INTERNAL_ERROR),
        lookup is Missing ==> r == Err::<(), u16>(STATUS_UNAUTHORIZED),
        lookup is Found ==> r is Ok,
{
    match lookup {
        SessionLookup::Failed => Err(STATUS_INTERNAL_ERROR),
        SessionLookup::Missing => Err(STATUS_UNAUTHORIZED),
        SessionLookup::Found => Ok(()),
    }
}

/// Classifies a session-store reply.
pub fn classify_lookup(reply: &Result<Option<String>, String>) -> (l: SessionLookup)
    ensures
        reply is Err ==> l is Failed,
        reply matches Ok(v) ==> (v is None ==> l is Missing) && (v is Some ==> l is Found),
{
    match reply {
        Err(_) => SessionLookup::Failed,
        Ok(None) => SessionLookup::Missing,
        Ok(Some(_)) => SessionLookup::Found,
    }
}

/// The guard's answer to a token that failed its checks.
pub fn token_rejected() -> (status: u16)
    ensures
        status == STATUS_UNAUTHORIZED,
{
    STATUS_UNAUTHORIZED
}

} // verus!
