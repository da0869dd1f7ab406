//! The token authority: it issues signed identity claims that expire after a
//! fixed lifetime, and verifies them.
//!
//! A token is valid when it decodes under the authority's secret and the
//! clock has not reached the expiry of its claims. Nothing else is
//! consulted: there is no list of revoked tokens and no session record.
use vstd::prelude::*;

verus! {

/// How long a token lives, in seconds: 24 hours.
pub const TOKEN_TTL_SECONDS: i64 = 86400;

/// The signed payload of a token.
#[derive(Debug, Clone, PartialEq, Eq)]
pub struct Claims {
    /// The subject id of the identity the token was issued to.
    pub sub: String,
    /// The display name of that identity.
    pub username: String,
    /// The instant, in seconds since the Unix epoch, from which the token
    /// is no longer accepted.
    pub exp: i64,
}

/// The model of [`Claims`].
pub struct ClaimsView {
    pub sub: Seq<char>,
    pub username: Seq<char>,
    pub exp: int,
}

impl View for Claims {
    type V = ClaimsView;

    open spec fn view(&self) -> ClaimsView {
        ClaimsView { sub: self.sub@, username: self.username@, exp: self.exp as int }
    }
}

/// Why the authority does not accept a token. The two kinds are told apart
/// because they call for different remedies: an expired token is cured by
/// logging in again, a malformed one is corrupted or forged.
#[derive(Debug, Clone, Copy, PartialEq, Eq, Structural)]
pub enum TokenError {
    /// The token does not decode under the authority's secret.
    Malformed,
    /// The token decodes, but the clock has reached its expiry.
    Expired,
}

/// The authority could not encode the claims of a token.
#[derive(Debug, Clone, Copy, PartialEq, Eq, Structural)]
pub struct TokenIssuanceError;

/// The error type of the token library, opaque to the verifier.
#[verifier::external_type_specification]
#[verifier::external_body]
pub struct ExTokenLibraryError(jsonwebtoken::errors::Error);

/// The token that the token library writes for `claims` under `secret`, if
/// it writes one.
pub uninterp spec fn signed_token(claims: ClaimsView, secret: Seq<u8>) -> Option<Seq<char>>;

/// The claims that the token library reads from `token` under `secret`: the
/// token must have the shape of a signed token, carry a signature made with
/// `secret`, and hold a subject, a username and an expiry. The expiry is
/// read, not judged.
pub uninterp spec fn token_claims(token: Seq<char>, secret: Seq<u8>) -> Option<ClaimsView>;

/// `jsonwebtoken::encode` with the default header (HMAC-SHA256) and a key
/// made of `secret` by `EncodingKey::from_secret`. The payload is a JSON
/// object with the members `sub`, `username` and `exp`, in this order.
///
/// Trusted: the result is a function of the claims and the secret, and a
/// token written under a secret reads back, under the same secret, as the
/// claims it was written for.
#[verifier::external_body]
fn encode_claims(claims: &Claims, secret: &[u8]) -> (r: Result<
    String,
    jsonwebtoken::errors::Error,
>)
    ensures
        match r {
            Ok(token) => signed_token(claims@, secret@) == Some(token@),
            Err(_) => signed_token(claims@, secret@) is None,
        },
        r matches Ok(token) ==> token_claims(token@, secret@) == Some(claims@),
{
    let mut payload = serde_json::Map::new();
    payload.insert("sub".to_string(), serde_json::Value::from(claims.sub.as_str()));
    payload.insert("username".to_string(), serde_json::Value::from(claims.username.as_str()));
    payload.insert("exp".to_string(), serde_json::Value::from(claims.exp));
    let key = jsonwebtoken::EncodingKey::from_secret(secret);
    jsonwebtoken::encode(&jsonwebtoken::Header::default(), &payload, &key)
}

/// `jsonwebtoken::decode` with a key made of `secret` by
/// `DecodingKey::from_secret`, under the default validation (HMAC-SHA256
/// only) with the expiry check switched off and no claim required by the
/// library itself: whether a token has expired is decided by the caller,
/// against a clock of its choice. The payload is read as a JSON value, and
/// the three claims are taken from it.
///
/// Trusted: the result is a function of the token and the secret.
#[verifier::external_body]
fn decode_claims(token: &str, secret: &[u8]) -> (r: Option<Claims>)
    ensures
        match r {
            Some(claims) => token_claims(token@, secret@) == Some(claims@),
            None => token_claims(token@, secret@) is None,
        },
{
    let mut validation = jsonwebtoken::Validation::default();
    validation.validate_exp = false;
    validation.required_spec_claims.clear();
    let key = jsonwebtoken::DecodingKey::from_secret(secret);
    let data = jsonwebtoken::decode::<serde_json::Value>(token, &key, &validation).ok()?;
    Some(Claims {
        sub: data.claims.get("sub")?.as_str()?.to_string(),
        username: data.claims.get("username")?.as_str()?.to_string(),
        exp: data.claims.get("exp")?.as_i64()?,
    })
}

/// The claims of a token issued at `now` to the identity `subject_id`,
/// known as `display_name`.
pub open spec fn claims_issued_at(
    subject_id: Seq<char>,
    display_name: Seq<char>,
    now: int,
) -> ClaimsView {
    ClaimsView { sub: subject_id, username: display_name, exp: now + TOKEN_TTL_SECONDS }
}

/// What verification answers at the instant `now`, given what the token
/// decodes to.
pub open spec fn verify_outcome(decoded: Option<ClaimsView>, now: int) -> Result<
    ClaimsView,
    TokenError,
> {
    match decoded {
        None => Err(TokenError::Malformed),
        Some(claims) => if now >= claims.exp {
            Err(TokenError::Expired)
        } else {
            Ok(claims)
        },
    }
}

/// Whether the exec result `r` is the outcome `expected`.
pub open spec fn is_verify_outcome(
    r: Result<Claims, TokenError>,
    expected: Result<ClaimsView, TokenError>,
) -> bool {
    match r {
        Ok(claims) => expected == Ok::<ClaimsView, TokenError>(claims@),
        Err(e) => expected == Err::<ClaimsView, TokenError>(e),
    }
}

/// Issues and verifies tokens under one secret.
pub struct TokenAuthority {
    secret: Vec<u8>,
}

impl TokenAuthority {
    /// The secret that signs and verifies this authority's tokens.
    pub closed spec fn secret(&self) -> Seq<u8> {
        self.secret@
    }

    /// An authority that signs with `secret`.
    pub fn new(secret: Vec<u8>) -> (authority: TokenAuthority)
        ensures
            authority.secret() == secret@,
    {
        TokenAuthority { secret }
    }

    /// Issues a token at the instant `now` for the identity `subject_id`,
    /// known as `display_name`. The token carries the two and an expiry of
    /// `now` plus the token lifetime.
    ///
    /// Issuing fails only if the claims cannot be encoded. A token that was
    /// issued reads back as the claims it was issued for: it verifies at
    /// every instant before the expiry, and from the expiry on it is
    /// reported as expired, never as malformed.
    pub fn issue(&self, subject_id: &str, display_name: &str, now: i64) -> (r: Result<
        String,
        TokenIssuanceError,
    >)
        requires
            now + TOKEN_TTL_SECONDS <= i64::MAX,
        ensures
            match r {
                Ok(token) => signed_token(
                    claims_issued_at(subject_id@, display_name@, now as int),
                    self.secret(),
                ) == Some(token@),
                Err(_) => signed_token(
                    claims_issued_at(subject_id@, display_name@, now as int),
                    self.secret(),
                ) is None,
            },
            r matches Ok(token) ==> token_claims(token@, self.secret()) == Some(
                claims_issued_at(subject_id@, display_name@, now as int),
            ),
            r matches Ok(token) ==> forall|at: int|
                at < now + TOKEN_TTL_SECONDS ==> #[trigger] verify_outcome(
                    token_claims(token@, self.secret()),
                    at,
                ) == Ok::<ClaimsView, TokenError>(
                    claims_issued_at(subject_id@, display_name@, now as int),
                ),
            r matches Ok(token) ==> forall|at: int|
                at >= now + TOKEN_TTL_SECONDS ==> #[trigger] verify_outcome(
                    token_claims(token@, self.secret()),
                    at,
                ) == Err::<ClaimsView, TokenError>(TokenError::Expired),
    {
        let claims = Claims {
            sub: subject_id.to_owned(),
            username: display_name.to_owned(),
            exp: now + TOKEN_TTL_SECONDS,
        };
        match encode_claims(&claims, self.secret.as_slice()) {
            Ok(token) => Ok(token),
            Err(_) => Err(TokenIssuanceError),
        }
    }

    /// Judges, at the instant `now`, what a token decoded to: nothing means
    /// a malformed token; claims whose expiry the clock has reached mean an
    /// expired one; otherwise the claims stand.
    pub fn check_expiry(decoded: Option<Claims>, now: i64) -> (r: Result<Claims, TokenError>)
        ensures
            is_verify_outcome(
                r,
                verify_outcome(
                    match decoded {
                        Some(c) => Some(c@),
                        None => None,
                    },
                    now as int,
                ),
            ),
            r matches Ok(claims) ==> decoded == Some(claims),
    {
        match decoded {
            None => Err(TokenError::Malformed),
            Some(claims) => if now >= claims.exp {
                Err(TokenError::Expired)
            } else {
                Ok(claims)
            },
        }
    }

    /// Verifies `token` at the instant `now`: decodes it under the
    /// authority's secret, then judges the expiry of its claims.
    pub fn verify(&self, token: &str, now: i64) -> (r: Result<Claims, TokenError>)
        ensures
            is_verify_outcome(r, verify_outcome(token_claims(token@, self.secret()), now as int)),
    {
        let decoded = decode_claims(token, self.secret.as_slice());
        TokenAuthority::check_expiry(decoded, now)
    }
}

/// A token that does not decode is reported as malformed whatever the clock
/// says, and a token is reported as expired only if it decodes.
pub proof fn lemma_undecodable_is_never_expired(decoded: Option<ClaimsView>, now: int)
    ensures
        decoded is None ==> verify_outcome(decoded, now) == Err::<ClaimsView, TokenError>(
            TokenError::Malformed,
        ),
        verify_outcome(decoded, now) == Err::<ClaimsView, TokenError>(TokenError::Expired)
            ==> decoded is Some,
{
}

/// A token that decodes is reported as expired at its expiry and at every
/// later instant, never as malformed; before its expiry it verifies.
pub proof fn lemma_expiry_is_sharp(claims: ClaimsView, now: int)
    ensures
        now >= claims.exp ==> verify_outcome(Some(claims), now) == Err::<ClaimsView, TokenError>(
            TokenError::Expired,
        ),
        now < claims.exp ==> verify_outcome(Some(claims), now) == Ok::<ClaimsView, TokenError>(
            claims,
        ),
{
}

/// Verification has no memory: if a token verifies at two instants, it
/// yields the same claims at both.
pub proof fn lemma_verification_is_repeatable(decoded: Option<ClaimsView>, first: int, second: int)
    ensures
        verify_outcome(decoded, first) is Ok && verify_outcome(decoded, second) is Ok
            ==> verify_outcome(decoded, first) == verify_outcome(decoded, second),
        verify_outcome(decoded, first) is Ok && second <= first ==> verify_outcome(decoded, second)
            == verify_outcome(decoded, first),
{
}

} // verus!
