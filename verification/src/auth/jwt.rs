//! The service that checks callers' tokens: RS256-signed JWTs under a public key.
use vstd::prelude::*;
use crate::sql::opt_text_view;

verus! {

/// A key that verifies token signatures (jsonwebtoken).
#[verifier::external_type_specification]
#[verifier::external_body]
pub struct ExDecodingKey(jsonwebtoken::DecodingKey);

/// The checks applied to a token besides its signature (jsonwebtoken).
#[verifier::external_type_specification]
#[verifier::external_body]
pub struct ExValidation(jsonwebtoken::Validation);

/// An error of jsonwebtoken.
#[verifier::external_type_specification]
#[verifier::external_body]
pub struct ExJwtError(jsonwebtoken::errors::Error);

/// Whether jsonwebtoken reads `pem` as an RSA public key in PEM form: the outcome of
/// `DecodingKey::from_rsa_pem`, which depends on the bytes alone.
pub uninterp spec fn rsa_pem_accepted(pem: Seq<u8>) -> bool;

/// `DecodingKey::from_rsa_pem` (jsonwebtoken): parses an RSA public key in PEM form. It
/// succeeds exactly on the inputs named by [`rsa_pem_accepted`]; the key itself is opaque.
#[verifier::external_body]
fn key_from_rsa_pem(pem: &[u8]) -> (r: Result<jsonwebtoken::DecodingKey, jsonwebtoken::errors::Error>)
    ensures
        r is Ok <==> rsa_pem_accepted(pem@),
{
    jsonwebtoken::DecodingKey::from_rsa_pem(pem)
}

/// The issuers that a `Validation` (jsonwebtoken) accepts in a token's `iss` claim: its
/// `iss` field, `None` when any issuer is accepted.
pub uninterp spec fn accepted_issuers(v: jsonwebtoken::Validation) -> Option<Set<Seq<char>>>;

/// Whether a `Validation` (jsonwebtoken) checks a token's expiry: its `validate_exp` field.
pub uninterp spec fn checks_expiry(v: jsonwebtoken::Validation) -> bool;

/// Whether a `Validation` (jsonwebtoken) requires the `exp` claim: whether its
/// `required_spec_claims` holds `"exp"`.
pub uninterp spec fn requires_expiry_claim(v: jsonwebtoken::Validation) -> bool;

/// Whether a `Validation` (jsonwebtoken) checks signatures and accepts RS256 alone: its
/// `validate_signature` is set and its `algorithms` is `[RS256]`.
pub uninterp spec fn accepts_only_rs256(v: jsonwebtoken::Validation) -> bool;

/// The seconds a `Validation` (jsonwebtoken) lets a token run past its `exp`: its `leeway`
/// field.
pub uninterp spec fn expiry_leeway(v: jsonwebtoken::Validation) -> u64;

/// The seconds before its `exp` at which a `Validation` (jsonwebtoken) already refuses a
/// token: its `reject_tokens_expiring_in_less_than` field.
pub uninterp spec fn expiry_margin(v: jsonwebtoken::Validation) -> u64;

/// `Validation::new(Algorithm::RS256)` (jsonwebtoken): checks signatures with RS256 as the
/// only algorithm, checks the expiry with a 60 s leeway and no early refusal, requires
/// the `exp` claim (`required_spec_claims` is `{"exp"}`), and accepts any issuer (`iss` is
/// `None`). The other fields (`nbf` unchecked, audience checked when present) are not
/// stated.
#[verifier::external_body]
fn rs256_validation() -> (v: jsonwebtoken::Validation)
    ensures
        checks_expiry(v),
        requires_expiry_claim(v),
        accepts_only_rs256(v),
        expiry_leeway(v) == 60,
        expiry_margin(v) == 0,
        accepted_issuers(v) is None,
{
    jsonwebtoken::Validation::new(jsonwebtoken::Algorithm::RS256)
}

/// Sets the `validate_exp` field of a `Validation` (jsonwebtoken); the issuers, the
/// required claims, the algorithms and the expiry leeway and margin are left as they were.
#[verifier::external_body]
fn set_validate_exp(v: &mut jsonwebtoken::Validation, on: bool)
    ensures
        checks_expiry(*final(v)) == on,
        accepted_issuers(*final(v)) == accepted_issuers(*old(v)),
        requires_expiry_claim(*final(v)) == requires_expiry_claim(*old(v)),
        accepts_only_rs256(*final(v)) == accepts_only_rs256(*old(v)),
        expiry_leeway(*final(v)) == expiry_leeway(*old(v)),
        expiry_margin(*final(v)) == expiry_margin(*old(v)),
{
    v.validate_exp = on;
}

/// `Validation::set_issuer` (jsonwebtoken) with one issuer: `iss` becomes the set of that
/// one issuer; the expiry check, the required claims, the algorithms and the expiry
/// leeway and margin are left as they were.
#[verifier::external_body]
fn set_issuer(v: &mut jsonwebtoken::Validation, issuer: &str)
    ensures
        accepted_issuers(*final(v)) == Some(set![issuer@]),
        checks_expiry(*final(v)) == checks_expiry(*old(v)),
        requires_expiry_claim(*final(v)) == requires_expiry_claim(*old(v)),
        accepts_only_rs256(*final(v)) == accepts_only_rs256(*old(v)),
        expiry_leeway(*final(v)) == expiry_leeway(*old(v)),
        expiry_margin(*final(v)) == expiry_margin(*old(v)),
{
    v.set_issuer(&[issuer]);
}

/// A token in compact form: header, payload and signature parted by at least two `.`.
pub open spec fn has_two_separators(token: Seq<char>) -> bool {
    exists|i: int, j: int| 0 <= i < j < token.len() && token[i] == '.' && token[j] == '.'
}

/// The claims of a token as JSON text: the JSON value of its payload part, base64-decoded,
/// as written there. It depends on the token's text alone.
pub uninterp spec fn token_claims(token: Seq<char>) -> Seq<char>;

/// Whether a token is signed with RS256 under the RSA public key written in PEM form in
/// `pem`: its header names RS256, and its signature over `header.payload` verifies under
/// that key. It depends on the token's text and the key's bytes alone.
pub uninterp spec fn rs256_signature_valid(token: Seq<char>, pem: Seq<u8>) -> bool;

/// Whether `jsonwebtoken::decode` accepts `token` under the RSA public key in `pem` and
/// the validation `v` when the clock (`get_current_timestamp`) reads `now` seconds. It
/// depends on these four alone.
pub uninterp spec fn accepted_at(
    token: Seq<char>,
    pem: Seq<u8>,
    v: jsonwebtoken::Validation,
    now: u64,
) -> bool;

/// The `iss` claim of a token when it is a single string (jsonwebtoken's
/// `Issuer::Single`), else `None`.
pub uninterp spec fn token_issuer(token: Seq<char>) -> Option<Seq<char>>;

/// The `exp` claim of a token when it reads as a number of seconds (jsonwebtoken's
/// `TryParse::Parsed`), else `None`.
pub uninterp spec fn token_expiry(token: Seq<char>) -> Option<u64>;

/// `jsonwebtoken::decode` of a token under the RSA public key in `pem` (read by
/// `DecodingKey::from_rsa_pem`), giving its claims as the JSON text of the payload.
/// A success means:
/// - the key was read, and the token splits at its last `.` and again at the last `.` of
///   the rest, so it has two `.`;
/// - when `validation` checks RS256 signatures alone, the token is signed with RS256
///   under that key;
/// - the text given back is the token's claims ([`token_claims`]);
/// - when `validation` requires `exp`, the token has one that reads as a number;
/// - when `validation` names its issuers, a single-string `iss` is one of them;
/// - the token was accepted at the clock reading `now` that `decode` took, and when
///   `validation` checks the expiry with no early refusal, an `exp` that reads as a
///   number is at least `now` less the leeway.
/// And since `decode`'s verdict at the reading it takes is [`accepted_at`] at that
/// reading: a token accepted at every reading passes, and one accepted at none fails.
/// Which reading `decode` took is not stated.
#[verifier::external_body]
fn decode_claims_json(
    token: &str,
    pem: &[u8],
    validation: &jsonwebtoken::Validation,
) -> (r: Result<String, jsonwebtoken::errors::Error>)
    ensures
        r is Ok ==> rsa_pem_accepted(pem@),
        r is Ok ==> has_two_separators(token@),
        r is Ok && accepts_only_rs256(*validation) ==> rs256_signature_valid(token@, pem@),
        r matches Ok(c) ==> c@ == token_claims(token@),
        r is Ok && requires_expiry_claim(*validation) ==> token_expiry(token@) is Some,
        (forall|now: u64| #[trigger] accepted_at(token@, pem@, *validation, now)) ==> r is Ok,
        (forall|now: u64| !#[trigger] accepted_at(token@, pem@, *validation, now)) ==> r is Err,
        r is Ok ==> exists|now: u64| #[trigger]
            accepted_at(token@, pem@, *validation, now) && (checks_expiry(*validation)
                && expiry_margin(*validation) == 0 ==> (token_expiry(token@) matches Some(e) ==> e
                + expiry_leeway(*validation) >= now)),
        r is Ok ==> (accepted_issuers(*validation) matches Some(s) ==> (token_issuer(token@) matches Some(
            i,
        ) ==> s.contains(i))),
{
    let key = jsonwebtoken::DecodingKey::from_rsa_pem(pem)?;
    jsonwebtoken::decode::<Box<serde_json::value::RawValue>>(token, &key, validation).map(
        |d| d.claims.get().to_string(),
    )
}

/// Why a key or a token was refused.
#[derive(Debug, Clone, Copy, PartialEq, Eq)]
pub enum AuthError {
    /// The public key is not an RSA public key in PEM form.
    InvalidKey,
    /// The token failed its checks: malformed, badly signed, expired or from another issuer.
    InvalidToken,
}

/// The checks applied to tokens: RS256 signatures, the expiry when `validate_exp`, and
/// the issuer when one is given.
#[derive(Debug, Clone)]
pub struct JwtSettings {
    pub validate_exp: bool,
    pub issuer: Option<String>,
}

/// `v` applies `settings`: it checks the expiry exactly when they say so, and accepts the
/// issuer they name, or any issuer when they name none.
pub open spec fn applies(v: jsonwebtoken::Validation, settings: JwtSettings) -> bool {
    &&& checks_expiry(v) == settings.validate_exp
    &&& accepted_issuers(v) == match settings.issuer {
        Some(i) => Some(set![i@]),
        None => None,
    }
}

/// Checks callers' tokens against a public key.
pub struct JwtService {
    /// The RSA public key, in PEM form, that tokens must be signed under.
    key_pem: Vec<u8>,
    validation: jsonwebtoken::Validation,
    /// The checks that `validation` was built with.
    settings: JwtSettings,
}

/// Parses an RSA public key in PEM form.
pub fn decoding_key(pem: &[u8]) -> (r: Result<jsonwebtoken::DecodingKey, AuthError>)
    ensures
        r is Ok <==> rsa_pem_accepted(pem@),
        r matches Err(e) ==> e == AuthError::InvalidKey,
{
    match key_from_rsa_pem(pem) {
        Ok(key) => Ok(key),
        Err(_) => Err(AuthError::InvalidKey),
    }
}

fn copy_settings(s: &JwtSettings) -> (c: JwtSettings)
    ensures
        c.validate_exp == s.validate_exp,
        opt_text_view(c.issuer) == opt_text_view(s.issuer),
{
    JwtSettings {
        validate_exp: s.validate_exp,
        issuer: match &s.issuer {
            Some(i) => Some(i.clone()),
            None => None,
        },
    }
}

impl JwtService {
    /// A service holds a readable RSA public key, and the validation it runs checks RS256
    /// signatures alone, applies its settings, requires the `exp` claim, and lets a token
    /// run 60 s past its `exp` with no early refusal.
    #[verifier::type_invariant]
    spec fn well_formed(self) -> bool {
        &&& rsa_pem_accepted(self.key_pem@)
        &&& accepts_only_rs256(self.validation)
        &&& expiry_leeway(self.validation) == 60
        &&& expiry_margin(self.validation) == 0
        &&& applies(self.validation, self.settings)
        &&& requires_expiry_claim(self.validation)
    }

    /// The RSA public key (PEM) that this service checks signatures under.
    pub closed spec fn key_pem(self) -> Seq<u8> {
        self.key_pem@
    }

    /// The checks this service applies.
    pub closed spec fn checks(self) -> JwtSettings {
        self.settings
    }

    /// The token validation this service runs.
    pub closed spec fn token_validation(self) -> jsonwebtoken::Validation {
        self.validation
    }

    /// A service over the RSA public key `pem` (PEM form) that applies `settings`; a key
    /// that cannot be read is `InvalidKey`.
    pub fn from_pem(pem: &[u8], settings: JwtSettings) -> (r: Result<JwtService, AuthError>)
        ensures
            r is Ok <==> rsa_pem_accepted(pem@),
            r matches Ok(s) ==> s.key_pem() == pem@ && s.checks() == settings && applies(
                s.token_validation(),
                settings,
            ) && requires_expiry_claim(s.token_validation()) && accepts_only_rs256(
                s.token_validation(),
            ),
            r matches Err(e) ==> e == AuthError::InvalidKey,
    {
        let _checked = decoding_key(pem)?;
        let mut validation = rs256_validation();
        set_validate_exp(&mut validation, settings.validate_exp);
        match &settings.issuer {
            Some(issuer) => set_issuer(&mut validation, issuer.as_str()),
            None => {},
        }
        Ok(JwtService { key_pem: vstd::slice::slice_to_vec(pem), validation, settings })
    }

    /// A service over the RSA public key `public_key` (PEM) that checks the expiry of
    /// tokens, and their issuer when `issuer` is given.
    pub fn new(public_key: &[u8], issuer: Option<String>) -> (r: Result<JwtService, AuthError>)
        ensures
            r is Ok <==> rsa_pem_accepted(public_key@),
            r matches Ok(s) ==> s.key_pem() == public_key@ && s.checks().validate_exp
                && opt_text_view(s.checks().issuer) == opt_text_view(issuer) && applies(
                s.token_validation(),
                s.checks(),
            ),
            r matches Err(e) ==> e == AuthError::InvalidKey,
    {
        JwtService::from_pem(public_key, JwtSettings { validate_exp: true, issuer })
    }

    /// The settings this service applies.
    pub fn settings(&self) -> (s: JwtSettings)
        ensures
            s.validate_exp == self.checks().validate_exp,
            opt_text_view(s.issuer) == opt_text_view(self.checks().issuer),
    {
        copy_settings(&self.settings)
    }

    /// Checks `token` and gives its claims as JSON text. A token that passes is signed
    /// with RS256 under the service's key, is in compact form (two `.`), carries an `exp`
    /// claim, and, when the service names an issuer, carries no other single-string
    /// `iss`; what is given back is its claims. It was accepted under the service's own
    /// validation at the clock reading `now` that decoding took, and when the service
    /// checks the expiry, its `exp` is at least `now` less 60 s. Conversely, a token that
    /// decoding accepts at every clock reading passes, with its claims. A refused token
    /// is `InvalidToken`.
    pub fn validate(&self, token: &str) -> (r: Result<String, AuthError>)
        ensures
            r is Ok ==> rs256_signature_valid(token@, self.key_pem()),
            r is Ok ==> has_two_separators(token@),
            r matches Ok(c) ==> c@ == token_claims(token@),
            r is Ok ==> token_expiry(token@) is Some,
            r is Ok ==> exists|now: u64| #[trigger]
                accepted_at(token@, self.key_pem(), self.token_validation(), now) && (
                self.checks().validate_exp ==> (token_expiry(token@) matches Some(e) ==> e + 60
                >= now)),
            r is Ok ==> (self.checks().issuer matches Some(want) ==> (token_issuer(token@) matches Some(
                i,
            ) ==> i == want@)),
            (forall|now: u64| #[trigger]
                accepted_at(token@, self.key_pem(), self.token_validation(), now)) ==> (r matches Ok(
                c,
            ) && c@ == token_claims(token@)),
            r matches Err(e) ==> e == AuthError::InvalidToken,
    {
        proof {
            use_type_invariant(self);
        }
        let pem = self.key_pem.as_slice();
        let decoded = decode_claims_json(token, pem, &self.validation);
        proof {
            assert(pem@ == self.key_pem());
            if forall|now: u64| #[trigger]
                accepted_at(token@, self.key_pem(), self.token_validation(), now) {
                assert forall|now: u64| #[trigger]
                    accepted_at(token@, pem@, self.validation, now) by {
                    assert(accepted_at(token@, self.key_pem(), self.token_validation(), now));
                }
            }
            if decoded is Ok {
                let v = self.validation;
                let now = choose|now: u64|
                    #[trigger] accepted_at(token@, self.key_pem@, v, now) && (checks_expiry(v)
                        && expiry_margin(v) == 0 ==> (token_expiry(token@) matches Some(e) ==> e
                        + expiry_leeway(v) >= now));
                assert(accepted_at(token@, self.key_pem(), self.token_validation(), now));
            }
        }
        token_outcome(decoded)
    }
}

/// What a caller is answered for the outcome of decoding a token: the claims JSON as it
/// came, or `InvalidToken` for any decoding error.
pub fn token_outcome(decoded: Result<String, jsonwebtoken::errors::Error>) -> (r: Result<
    String,
    AuthError,
>)
    ensures
        r is Ok <==> decoded is Ok,
        r matches Ok(c) ==> (decoded matches Ok(d) && c@ == d@),
        r matches Err(e) ==> e == AuthError::InvalidToken,
{
    match decoded {
        Ok(claims) => Ok(claims),
        Err(_) => Err(AuthError::InvalidToken),
    }
}

} // verus!
