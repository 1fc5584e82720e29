use vstd::prelude::*;
use crate::clock::{now_utc, Timestamp, MAX_TIMESTAMP_SECS, MIN_TIMESTAMP_SECS};
use crate::error::AuthError;
use crate::text::{dec_int, hex_text, push_byte_hex, push_signed_decimal};

verus! {

broadcast use vstd::array::group_array_axioms;

/// Lifetime of an access token: 15 minutes.
pub const ACCESS_TOKEN_TTL_SECS: i64 = 900;

/// Clock skew allowed when checking a token's expiry: one minute.
pub const JWT_LEEWAY_SECS: i64 = 60;

/// The payload of a JWT. It is signed, not encrypted: anyone can read it, so it
/// never holds a secret.
#[derive(Debug, Clone, Copy)]
pub struct Claims {
    /// Subject: the id of the user the token belongs to (the 16 bytes of its UUID).
    pub sub: [u8; 16],
    /// Issued at (Unix seconds).
    pub iat: i64,
    /// Expiry (Unix seconds); the token is invalid after it.
    pub exp: i64,
}

/// The hyphenated lowercase text of a UUID given by its 16 bytes:
/// 8-4-4-4-12 hexadecimal digits.
#[verifier::opaque]
pub open spec fn uuid_text(id: Seq<u8>) -> Seq<char> {
    hex_text(id.subrange(0, 4)) + seq!['-'] + hex_text(id.subrange(4, 6)) + seq!['-']
        + hex_text(id.subrange(6, 8)) + seq!['-'] + hex_text(id.subrange(8, 10)) + seq!['-']
        + hex_text(id.subrange(10, 16))
}

/// The JSON text of the claims, fields in declaration order, no whitespace:
/// `{"sub":"<uuid>","iat":<n>,"exp":<n>}`.
#[verifier::opaque]
pub open spec fn claims_json(c: Claims) -> Seq<char> {
    "{\"sub\":\""@ + uuid_text(c.sub@) + "\",\"iat\":"@ + dec_int(c.iat as int) + ",\"exp\":"@
        + dec_int(c.exp as int) + "}"@
}

/// The claims of an access token for `user_id` issued at `now`.
pub open spec fn access_claims(user_id: [u8; 16], now: i64) -> Claims {
    Claims { sub: user_id, iat: now, exp: (now + ACCESS_TOKEN_TTL_SECS) as i64 }
}

/// Can an access token be issued at `now`? The expiry must stay inside the calendar.
pub open spec fn access_issuable_at(now: i64) -> bool {
    MIN_TIMESTAMP_SECS <= now && now + ACCESS_TOKEN_TTL_SECS <= MAX_TIMESTAMP_SECS
}

/// The compact JWT that the default header (HS256, type JWT) gives for a claims
/// text taken verbatim and an HMAC secret.
pub uninterp spec fn hs256_jwt(payload: Seq<char>, secret: Seq<char>) -> Seq<char>;

/// The payload text of a token that decodes under the secret: the token has the
/// compact JWT shape, its header names HS256, its HMAC-SHA256 signature
/// verifies with the secret's bytes, and its payload is a JSON object without
/// an audience claim; the text is that object's JSON as signed, and neither the
/// presence nor the date of the expiry is checked. `None` otherwise.
pub uninterp spec fn hs256_payload(token: Seq<char>, secret: Seq<char>) -> Option<Seq<char>>;

/// Is the text the JSON of some claims?
pub open spec fn is_claims_text(payload: Seq<char>) -> bool {
    exists|c: Claims| #[trigger] claims_json(c) == payload
}

/// Signs a JSON payload as a compact JWT with the default header (HS256) and the
/// HMAC secret's bytes (`jsonwebtoken::encode`, the payload handed over verbatim as a
/// `serde_json` raw value, so that the signed claims are exactly `payload`).
/// Claimed: a produced token is the named function of the payload and the
/// secret; a claims text (valid JSON without surrounding space) is always
/// signed, since the raw value accepts valid JSON, the default header's
/// algorithm belongs to the secret key's family and HMAC takes a key of any
/// length; and decoding the token under the same secret gives the payload back.
#[verifier::external_body]
fn jwt_encode_hs256(payload: &str, secret: &str) -> (r: Result<String, jsonwebtoken::errors::Error>)
    ensures
        is_claims_text(payload@) ==> r is Ok,
        r matches Ok(t) ==> t@ == hs256_jwt(payload@, secret@),
        r matches Ok(t) ==> (is_claims_text(payload@) ==> hs256_payload(t@, secret@) == Some(payload@)),
{
    let claims = serde_json::value::RawValue::from_string(payload.to_string())?;
    jsonwebtoken::encode(
        &jsonwebtoken::Header::default(),
        &claims,
        &jsonwebtoken::EncodingKey::from_secret(secret.as_bytes()),
    )
}

fn push_hex_range(s: &mut String, id: &[u8; 16], from: usize, to: usize)
    requires
        from <= to <= 16,
    ensures
        final(s)@ == old(s)@ + hex_text(id@.subrange(from as int, to as int)),
{
    let ghost start = s@;
    let mut i = from;
    while i < to
        invariant
            from <= i <= to <= 16,
            id@.len() == 16,
            s@ == start + hex_text(id@.subrange(from as int, i as int)),
        decreases to - i,
    {
        push_byte_hex(s, id[i]);
        assert(id@.subrange(from as int, i + 1).drop_last() =~= id@.subrange(from as int, i as int));
        i = i + 1;
    }
}

impl Claims {
    /// The JSON text of the claims, as serialised into the token.
    pub fn to_json(&self) -> (s: String)
        ensures
            s@ == claims_json(*self),
    {
        let mut s = String::new();
        s.append("{\"sub\":\"");
        push_hex_range(&mut s, &self.sub, 0, 4);
        crate::text::string_push(&mut s, '-');
        push_hex_range(&mut s, &self.sub, 4, 6);
        crate::text::string_push(&mut s, '-');
        push_hex_range(&mut s, &self.sub, 6, 8);
        crate::text::string_push(&mut s, '-');
        push_hex_range(&mut s, &self.sub, 8, 10);
        crate::text::string_push(&mut s, '-');
        push_hex_range(&mut s, &self.sub, 10, 16);
        s.append("\",\"iat\":");
        push_signed_decimal(&mut s, self.iat);
        s.append(",\"exp\":");
        push_signed_decimal(&mut s, self.exp);
        s.append("}");
        reveal(claims_json);
        reveal(uuid_text);
        assert(s@ =~= claims_json(*self));
        s
    }

    /// The claims of an access token for `user_id` issued at `now`: expiry 15 minutes later.
    pub fn for_access(user_id: [u8; 16], now: i64) -> (c: Claims)
        requires
            access_issuable_at(now),
        ensures
            c == access_claims(user_id, now),
    {
        Claims { sub: user_id, iat: now, exp: now + ACCESS_TOKEN_TTL_SECS }
    }
}

/// Creates the signed access token of `user_id` as issued at Unix second `now`.
pub fn create_access_token_at(user_id: [u8; 16], now: i64, secret: &str) -> (r: Result<String, AuthError>)
    requires
        access_issuable_at(now),
    ensures
        r matches Ok(t) && t@ == hs256_jwt(claims_json(access_claims(user_id, now)), secret@)
            && hs256_payload(t@, secret@) == Some(claims_json(access_claims(user_id, now))),
{
    let claims = Claims::for_access(user_id, now);
    let payload = claims.to_json();
    assert(is_claims_text(payload@)) by {
        assert(claims_json(claims) == payload@);
    }
    match jwt_encode_hs256(payload.as_str(), secret) {
        Ok(t) => Ok(t),
        Err(e) => Err(AuthError::Jwt(e)),
    }
}

/// Creates a signed access token for a user, issued now and valid 15 minutes.
/// The secret comes from the configuration. Also gives the clock reading it
/// was issued at. A reading so close to the end of the calendar that the
/// expiry cannot be represented gives `ExpiryOutOfRange`.
pub fn create_access_token(user_id: [u8; 16], secret: &str) -> (res: (Result<String, AuthError>, Ghost<Timestamp>))
    ensures
        res.1@.wf(),
        res.1@.secs >= 0,
        access_issuable_at(res.1@.secs) ==> (res.0 matches Ok(t)
            && t@ == hs256_jwt(claims_json(access_claims(user_id, res.1@.secs)), secret@)
            && hs256_payload(t@, secret@) == Some(claims_json(access_claims(user_id, res.1@.secs)))),
        !access_issuable_at(res.1@.secs) ==> (res.0 matches Err(e) && e is ExpiryOutOfRange),
{
    let now = now_utc();
    if now.secs > MAX_TIMESTAMP_SECS - ACCESS_TOKEN_TTL_SECS {
        return (Err(AuthError::ExpiryOutOfRange), Ghost(now));
    }
    (create_access_token_at(user_id, now.secs, secret), Ghost(now))
}

/// An access token expires exactly 15 minutes after it is issued, and names its user.
pub proof fn lemma_access_claims_window(user_id: [u8; 16], now: i64)
    requires
        access_issuable_at(now),
    ensures
        access_claims(user_id, now).exp - access_claims(user_id, now).iat == 900,
        access_claims(user_id, now).sub == user_id,
{
}

/// Decodes a compact JWT under an HMAC secret (`jsonwebtoken::decode`, the claims
/// taken as a `serde_json` raw value) with the default validation (HS256 only,
/// signature checked, no audience expected) except that neither the presence nor
/// the date of the expiry is checked, and gives the payload's JSON text.
/// Claimed: the result is the named function of the token and the secret, and
/// every failure is a token the name rejects.
#[verifier::external_body]
fn jwt_decode_hs256(token: &str, secret: &str) -> (r: Result<String, jsonwebtoken::errors::Error>)
    ensures
        r matches Ok(p) ==> hs256_payload(token@, secret@) == Some(p@),
        r is Err ==> hs256_payload(token@, secret@) is None,
{
    let mut validation = jsonwebtoken::Validation::default();
    validation.validate_exp = false;
    validation.required_spec_claims.clear();
    let key = jsonwebtoken::DecodingKey::from_secret(secret.as_bytes());
    let data = jsonwebtoken::decode::<Box<serde_json::value::RawValue>>(token, &key, &validation)?;
    Ok(data.claims.get().to_string())
}

/// The claim fields that reading a payload text as JSON gives: the `sub`
/// string and the `iat` and `exp` integers of a JSON object, when each is
/// present with that type and the integers fit in 64 bits; `None` otherwise.
pub uninterp spec fn json_claim_fields(payload: Seq<char>) -> Option<(Seq<char>, i64, i64)>;

/// The 16 bytes of the UUID that a text denotes (hyphenated, simple, braced or
/// URN form, hexadecimal digits of either case); `None` for any other text.
pub uninterp spec fn uuid_bytes(text: Seq<char>) -> Option<Seq<u8>>;

/// Reads the `sub`, `iat` and `exp` fields of a JSON payload (`serde_json::from_str`
/// into a `serde_json::Value`, then `Value::get` and `as_str` / `as_i64` on each
/// field). Claimed: the result is the named function of the text, and the
/// JSON text of some claims reads back as their UUID text, issue time and
/// expiry (JSON integers in the range of `i64` read back exactly).
#[verifier::external_body]
fn json_claims(payload: &str) -> (r: Option<(String, i64, i64)>)
    ensures
        r matches Some(f) ==> json_claim_fields(payload@) == Some((f.0@, f.1, f.2)),
        r is None ==> json_claim_fields(payload@) is None,
        forall|c: Claims| #[trigger] claims_json(c) == payload@ ==> r is Some && r.unwrap().0@ == uuid_text(c.sub@) && r.unwrap().1 == c.iat && r.unwrap().2 == c.exp,
{
    let v: serde_json::Value = serde_json::from_str(payload).ok()?;
    let sub = v.get("sub")?.as_str()?.to_string();
    let iat = v.get("iat")?.as_i64()?;
    let exp = v.get("exp")?.as_i64()?;
    Some((sub, iat, exp))
}

/// Parses a UUID text (`uuid::Uuid::parse_str`) into its 16 bytes. Claimed: the
/// result is the named function of the text, and the hyphenated lowercase
/// text of a UUID parses back to its bytes.
#[verifier::external_body]
fn uuid_parse(text: &str) -> (r: Option<[u8; 16]>)
    ensures
        r matches Some(b) ==> uuid_bytes(text@) == Some(b@),
        r is None ==> uuid_bytes(text@) is None,
        forall|id: [u8; 16]| #[trigger] uuid_text(id@) == text@ ==> r == Some(id),
{
    uuid::Uuid::parse_str(text).ok().map(|u| *u.as_bytes())
}

/// The `jsonwebtoken` error of a payload that does not hold the claims
/// (`ErrorKind::InvalidToken`).
#[verifier::external_body]
fn jwt_invalid_claims_error() -> (e: jsonwebtoken::errors::Error) {
    jsonwebtoken::errors::ErrorKind::InvalidToken.into()
}

/// The `jsonwebtoken` error of a token without a usable expiry
/// (`ErrorKind::MissingRequiredClaim("exp")`).
#[verifier::external_body]
fn jwt_missing_expiry_error() -> (e: jsonwebtoken::errors::Error) {
    jsonwebtoken::errors::ErrorKind::MissingRequiredClaim("exp".to_string()).into()
}

/// The `jsonwebtoken` error of an expired token (`ErrorKind::ExpiredSignature`).
#[verifier::external_body]
fn jwt_expired_error() -> (e: jsonwebtoken::errors::Error) {
    jsonwebtoken::errors::ErrorKind::ExpiredSignature.into()
}

/// Is an access token with these claims still accepted at Unix second `now`? Its
/// expiry is a valid (non-negative) timestamp not earlier than `now` less the
/// allowed skew.
pub open spec fn access_valid_at(c: Claims, now: int) -> bool {
    0 <= c.exp && now - JWT_LEEWAY_SECS <= c.exp
}

/// What decoding `token` under `secret` at Unix second `now` answers: the claims
/// of a token whose signature verifies, whose payload holds a `sub` UUID and
/// integer `iat` and `exp`, and whose expiry is still valid at `now`; every
/// other token is a `Jwt` failure. In particular, a token whose payload is the
/// JSON of claims still valid at `now` decodes to exactly those claims.
pub open spec fn decoded_as(token: Seq<char>, secret: Seq<char>, now: int, r: Result<Claims, AuthError>) -> bool {
    &&& match hs256_payload(token, secret) {
        None => r matches Err(e) && e is Jwt,
        Some(p) => match json_claim_fields(p) {
            None => r matches Err(e) && e is Jwt,
            Some((sub, iat, exp)) => match uuid_bytes(sub) {
                None => r matches Err(e) && e is Jwt,
                Some(id) => if exp < 0 || exp < now - JWT_LEEWAY_SECS {
                    r matches Err(e) && e is Jwt
                } else {
                    r matches Ok(c) && c.sub@ == id && c.iat == iat && c.exp == exp
                },
            },
        },
    }
    &&& forall|c: Claims|
        hs256_payload(token, secret) == Some(#[trigger] claims_json(c)) && access_valid_at(c, now)
            ==> r == Ok::<Claims, AuthError>(c)
}

/// Decodes and validates an access token (signature and expiry) as of Unix
/// second `now`, and gives its claims.
pub fn decode_access_token_at(token: &str, secret: &str, now: i64) -> (r: Result<Claims, AuthError>)
    ensures
        decoded_as(token@, secret@, now as int, r),
{
    let payload = match jwt_decode_hs256(token, secret) {
        Ok(p) => p,
        Err(e) => return Err(AuthError::Jwt(e)),
    };
    let (sub_text, iat, exp) = match json_claims(payload.as_str()) {
        Some(f) => f,
        None => return Err(AuthError::Jwt(jwt_invalid_claims_error())),
    };
    let sub = match uuid_parse(sub_text.as_str()) {
        Some(b) => b,
        None => return Err(AuthError::Jwt(jwt_invalid_claims_error())),
    };
    proof {
        assert forall|c: Claims| hs256_payload(token@, secret@) == Some(#[trigger] claims_json(c)) implies c.sub == sub
            && c.iat == iat && c.exp == exp by {
            assert(c.sub =~= sub);
        }
    }
    if exp < 0 {
        return Err(AuthError::Jwt(jwt_missing_expiry_error()));
    }
    let expired = if now < i64::MIN + JWT_LEEWAY_SECS { false } else { exp < now - JWT_LEEWAY_SECS };
    if expired {
        return Err(AuthError::Jwt(jwt_expired_error()));
    }
    Ok(Claims { sub, iat, exp })
}

/// Decodes and validates an access token (signature and expiry) and gives its
/// claims, with the clock reading it was checked against.
pub fn decode_access_token(token: &str, secret: &str) -> (res: (Result<Claims, AuthError>, Ghost<Timestamp>))
    ensures
        res.1@.wf(),
        res.1@.secs >= 0,
        decoded_as(token@, secret@, res.1@.secs as int, res.0),
{
    let now = now_utc();
    (decode_access_token_at(token, secret, now.secs), Ghost(now))
}

/// A signed access token decodes back to its claims: a token whose payload is
/// the claims of an access token for `user_id` issued at `now` (as
/// `create_access_token_at` makes it), decoded under the same secret at any
/// second up to its expiry plus the allowed skew, gives exactly those claims.
pub proof fn lemma_access_token_round_trip(
    user_id: [u8; 16],
    now: i64,
    token: Seq<char>,
    secret: Seq<char>,
    later: int,
    r: Result<Claims, AuthError>,
)
    requires
        access_issuable_at(now),
        0 <= now + ACCESS_TOKEN_TTL_SECS,
        hs256_payload(token, secret) == Some(claims_json(access_claims(user_id, now))),
        later <= now + ACCESS_TOKEN_TTL_SECS + JWT_LEEWAY_SECS,
        decoded_as(token, secret, later, r),
    ensures
        r == Ok::<Claims, AuthError>(access_claims(user_id, now)),
        r matches Ok(c) && c.sub == user_id && c.exp - c.iat == ACCESS_TOKEN_TTL_SECS,
{
    let c = access_claims(user_id, now);
    assert(access_valid_at(c, later));
}

/// The token carried by an `Authorization` header value of the form
/// `Bearer <token>`; `None` for any other value.
pub fn bearer_token(header: &str) -> (r: Option<&str>)
    ensures
        match r {
            Some(t) => header@.len() >= 7 && header@.subrange(0, 7) == "Bearer "@
                && t@ == header@.subrange(7, header@.len() as int),
            None => !(header@.len() >= 7 && header@.subrange(0, 7) == "Bearer "@),
        },
{
    let prefix = "Bearer ";
    proof {
        reveal_strlit("Bearer ");
    }
    let n = header.unicode_len();
    if n < 7 {
        return None;
    }
    let mut i: usize = 0;
    while i < 7
        invariant
            i <= 7,
            n == header@.len(),
            n >= 7,
            prefix@ == "Bearer "@,
            prefix@.len() == 7,
            forall|m: int| 0 <= m < i ==> header@[m] == prefix@[m],
        decreases 7 - i,
    {
        if header.get_char(i) != prefix.get_char(i) {
            assert(header@.subrange(0, 7)[i as int] == header@[i as int]);
            return None;
        }
        i = i + 1;
    }
    assert(header@.subrange(0, 7) =~= prefix@);
    Some(header.substring_char(7, n))
}

} // verus!
