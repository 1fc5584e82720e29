use lodestone::error::{AppError, AuthError};
use lodestone::handlers::{authenticate, authenticate_at};
use lodestone::jwt::{
    bearer_token, create_access_token, create_access_token_at, decode_access_token, decode_access_token_at, Claims,
};
use lodestone::refresh::{generate_refresh_token, hash_refresh_token, to_hex};

fn decode_claims(token: &str, secret: &str) -> Result<serde_json::Value, jsonwebtoken::errors::Error> {
    let mut validation = jsonwebtoken::Validation::default();
    validation.validate_exp = false;
    jsonwebtoken::decode::<serde_json::Value>(
        token,
        &jsonwebtoken::DecodingKey::from_secret(secret.as_bytes()),
        &validation,
    )
    .map(|d| d.claims)
}

const USER: [u8; 16] = [
    0x12, 0x34, 0x56, 0x78, 0x9a, 0xbc, 0xde, 0xf0, 0x01, 0x23, 0x45, 0x67, 0x89, 0xab, 0xcd, 0xef,
];

#[test]
fn to_hex_two_lowercase_digits_per_byte() {
    assert_eq!(to_hex(&[0x00, 0xff, 0x1a, 0x09]), "00ff1a09");
    assert_eq!(to_hex(&[]), "");
}

#[test]
fn refresh_hash_is_sha256_hex() {
    assert_eq!(
        hash_refresh_token("abc"),
        "ba7816bf8f01cfea414140de5dae2223b00361a396177a9cb410ff61f20015ad"
    );
    assert_eq!(hash_refresh_token("abc"), hash_refresh_token("abc"));
    assert_ne!(hash_refresh_token("abc"), hash_refresh_token("abd"));
}

#[test]
fn generated_refresh_tokens_are_64_hex_and_distinct() {
    let a = generate_refresh_token();
    let b = generate_refresh_token();
    assert_eq!(a.len(), 64);
    assert!(a.chars().all(|c| c.is_ascii_digit() || ('a'..='f').contains(&c)));
    assert_ne!(a, b);
    assert_eq!(hash_refresh_token(&a).len(), 64);
}

#[test]
fn claims_serialise_like_the_payload_of_the_token() {
    let c = Claims { sub: USER, iat: 1_700_000_000, exp: 1_700_000_900 };
    assert_eq!(
        c.to_json(),
        "{\"sub\":\"12345678-9abc-def0-0123-456789abcdef\",\"iat\":1700000000,\"exp\":1700000900}"
    );
    let neg = Claims { sub: [0; 16], iat: -5, exp: 0 };
    assert_eq!(
        neg.to_json(),
        "{\"sub\":\"00000000-0000-0000-0000-000000000000\",\"iat\":-5,\"exp\":0}"
    );
}

#[test]
fn access_token_at_carries_user_and_fifteen_minutes() {
    let token = create_access_token_at(USER, 1_700_000_000, "s3cret").unwrap();
    let claims = decode_claims(&token, "s3cret").unwrap();
    assert_eq!(claims["sub"], "12345678-9abc-def0-0123-456789abcdef");
    assert_eq!(claims["iat"], 1_700_000_000i64);
    assert_eq!(claims["exp"], 1_700_000_900i64);
    assert!(decode_claims(&token, "other").is_err());
    let again = create_access_token_at(USER, 1_700_000_000, "s3cret").unwrap();
    assert_eq!(token, again);
}

#[test]
fn access_token_now_is_valid_for_fifteen_minutes() {
    let (token, _) = create_access_token(USER, "k");
    let token = token.unwrap();
    let data = jsonwebtoken::decode::<serde_json::Value>(
        &token,
        &jsonwebtoken::DecodingKey::from_secret(b"k"),
        &jsonwebtoken::Validation::default(),
    )
    .unwrap();
    let iat = data.claims["iat"].as_i64().unwrap();
    let exp = data.claims["exp"].as_i64().unwrap();
    assert_eq!(exp - iat, 900);
    let header = jsonwebtoken::decode_header(&token).unwrap();
    assert_eq!(header.alg, jsonwebtoken::Algorithm::HS256);
}

fn sign(payload: &str, secret: &str) -> String {
    let value: serde_json::Value = serde_json::from_str(payload).unwrap();
    jsonwebtoken::encode(
        &jsonwebtoken::Header::default(),
        &value,
        &jsonwebtoken::EncodingKey::from_secret(secret.as_bytes()),
    )
    .unwrap()
}

fn jwt_kind(r: Result<Claims, AuthError>) -> jsonwebtoken::errors::ErrorKind {
    match r {
        Err(AuthError::Jwt(e)) => e.into_kind(),
        _ => panic!("expected a JWT error"),
    }
}

#[test]
fn decode_gives_back_the_claims_until_expiry_plus_leeway() {
    let token = create_access_token_at(USER, 1_700_000_000, "s3cret").unwrap();
    let c = decode_access_token_at(&token, "s3cret", 1_700_000_000).unwrap();
    assert_eq!((c.sub, c.iat, c.exp), (USER, 1_700_000_000, 1_700_000_900));
    assert!(decode_access_token_at(&token, "s3cret", 1_700_000_960).is_ok());
    assert!(matches!(
        jwt_kind(decode_access_token_at(&token, "s3cret", 1_700_000_961)),
        jsonwebtoken::errors::ErrorKind::ExpiredSignature
    ));
    assert!(matches!(
        jwt_kind(decode_access_token_at(&token, "other", 1_700_000_000)),
        jsonwebtoken::errors::ErrorKind::InvalidSignature
    ));
    assert!(matches!(decode_access_token_at("not.a.token", "s3cret", 0), Err(AuthError::Jwt(_))));
    let extreme = create_access_token_at([0xff; 16], 8_000_000_000_000, "s3cret").unwrap();
    let c = decode_access_token_at(&extreme, "s3cret", 8_000_000_000_000).unwrap();
    assert_eq!((c.sub, c.iat, c.exp), ([0xff; 16], 8_000_000_000_000, 8_000_000_000_900));
}

#[test]
fn decode_reads_any_json_form_of_the_claims() {
    let spaced = sign(
        "{ \"exp\" : 4000000000, \"role\": \"x\", \"iat\": 7, \"sub\": \"12345678-9ABC-DEF0-0123-456789ABCDEF\" }",
        "s3cret",
    );
    let c = decode_access_token_at(&spaced, "s3cret", 1_700_000_000).unwrap();
    assert_eq!((c.sub, c.iat, c.exp), (USER, 7, 4_000_000_000));
    let simple = sign("{\"sub\":\"123456789abcdef00123456789abcdef\",\"iat\":1,\"exp\":4000000000}", "s3cret");
    assert_eq!(decode_access_token_at(&simple, "s3cret", 0).unwrap().sub, USER);
}

#[test]
fn decode_refuses_foreign_or_negative_claims() {
    let negative = create_access_token_at(USER, -2_000, "s3cret").unwrap();
    assert!(matches!(
        jwt_kind(decode_access_token_at(&negative, "s3cret", 0)),
        jsonwebtoken::errors::ErrorKind::MissingRequiredClaim(_)
    ));
    let no_iat = sign("{\"sub\":\"12345678-9abc-def0-0123-456789abcdef\",\"exp\":4000000000}", "s3cret");
    assert!(matches!(decode_access_token_at(&no_iat, "s3cret", 0), Err(AuthError::Jwt(_))));
    let bad_sub = sign("{\"sub\":\"x\",\"iat\":1,\"exp\":4000000000}", "s3cret");
    assert!(matches!(decode_access_token_at(&bad_sub, "s3cret", 0), Err(AuthError::Jwt(_))));
}

#[test]
fn decode_now_accepts_a_fresh_token() {
    let (token, _) = create_access_token(USER, "k");
    let (c, _) = decode_access_token(&token.unwrap(), "k");
    let c = c.unwrap();
    assert_eq!(c.sub, USER);
    assert_eq!(c.exp - c.iat, 900);
}

#[test]
fn bearer_prefix_is_required() {
    assert_eq!(bearer_token("Bearer abc.def.ghi"), Some("abc.def.ghi"));
    assert_eq!(bearer_token("Bearer "), Some(""));
    assert_eq!(bearer_token("bearer abc"), None);
    assert_eq!(bearer_token("Basic abc"), None);
    assert_eq!(bearer_token("Bear"), None);
}

#[test]
fn requests_authenticate_with_a_bearer_access_token() {
    let token = create_access_token_at(USER, 1_700_000_000, "s3cret").unwrap();
    let header = format!("Bearer {}", token);
    assert_eq!(authenticate_at(Some(&header), "s3cret", 1_700_000_100).ok(), Some(USER));
    assert!(matches!(authenticate_at(None, "s3cret", 1_700_000_100), Err(AppError::Unauthorized)));
    assert!(matches!(authenticate_at(Some(&token), "s3cret", 1_700_000_100), Err(AppError::Unauthorized)));
    assert!(matches!(authenticate_at(Some(&header), "wrong", 1_700_000_100), Err(AppError::Unauthorized)));
    assert!(matches!(authenticate_at(Some(&header), "s3cret", 1_700_001_000), Err(AppError::Unauthorized)));
    let (fresh, _) = create_access_token(USER, "k");
    let fresh_header = format!("Bearer {}", fresh.unwrap());
    let (who, _) = authenticate(Some(&fresh_header), "k");
    assert_eq!(who.ok(), Some(USER));
}
