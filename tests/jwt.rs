use jsonwebtoken::{encode, Algorithm, EncodingKey, Header, Validation};
use url_resource::jwks::{FetchedJwks, KeyRing};
use url_resource::jwt::{
    JwtDecoder, JwtDecoderKind, TokioJwtDecoder, DEFAULT_JWKS_MAX_WAIT_MILLIS,
    DEFAULT_JWKS_TTL_MILLIS,
};
use url_resource::locator::Locator;
use url_resource::jwt::{
    check_jwks_scheme, decode_token, decoded_or_invalid, jwks_or_fetch_error, jwks_fetch_timed_out, jwks_path_missing, key_id_from_header,
    parse_jwks, token_key_id, JwtDecoderError,
};

const SECRET_JWKS: &str = r#"{"keys":[{"kty":"oct","k":"c2VjcmV0","kid":"k1"},{"kty":"oct","k":"b3RoZXI","kid":"k1"},{"kty":"oct","k":"b3RoZXI","kid":"k2"}]}"#;

fn token(kid: Option<&str>, secret: &[u8]) -> String {
    let mut header = Header::new(Algorithm::HS256);
    header.kid = kid.map(str::to_owned);
    let claims: serde_json::Value =
        serde_json::from_str(r#"{"sub":"user@example.com","exp":4000000000}"#).unwrap();
    encode(&header, &claims, &EncodingKey::from_secret(secret)).unwrap()
}

fn ring(expiration: u64) -> KeyRing {
    let jwks = parse_jwks(SECRET_JWKS.as_bytes());
    KeyRing::build(&vec![None, Some(FetchedJwks { jwks, expiration })])
}

#[test]
fn header_key_id_is_read() {
    assert_eq!(token_key_id(&token(Some("k1"), b"secret")).ok(), Some("k1".to_owned()));
}

#[test]
fn header_without_key_id_fails_validation() {
    let err = token_key_id(&token(None, b"secret")).err().unwrap();
    assert!(matches!(err, JwtDecoderError::ValidationFailed { message } if message == "Header missing kid"));
}

#[test]
fn unreadable_header_fails_parsing() {
    let err = token_key_id("not-a-token").err().unwrap();
    assert!(matches!(err, JwtDecoderError::HeaderParsingFailed { .. }));
}

#[test]
fn key_id_from_read_header() {
    assert_eq!(key_id_from_header(Ok(Some("a".to_owned()))).ok(), Some("a".to_owned()));
    assert!(matches!(
        key_id_from_header(Err("bad".to_owned())),
        Err(JwtDecoderError::HeaderParsingFailed { message }) if message == "bad"
    ));
}

#[test]
fn malformed_jwks_is_a_fetch_error() {
    assert!(matches!(parse_jwks(b"{"), Err(JwtDecoderError::JwksFetchError { .. })));
}

#[test]
fn first_listed_key_decodes_token() {
    let ring = ring(1_000);
    let key = ring.key_for(&"k1".to_owned(), 10).unwrap();
    let mut validation = Validation::new(Algorithm::HS256);
    validation.validate_aud = false;
    let data = decode_token(&token(Some("k1"), b"secret"), key, &validation).unwrap();
    assert_eq!(data.claims["sub"], "user@example.com");
    let rejected = decode_token(&token(Some("k1"), b"other"), key, &validation);
    assert!(matches!(rejected, Err(JwtDecoderError::ValidationFailed { .. })));
}

#[test]
fn key_ring_misses_unknown_and_expired_keys() {
    let ring = ring(1_000);
    assert!(ring.key_for(&"k2".to_owned(), 10).is_some());
    assert!(ring.key_for(&"k3".to_owned(), 10).is_none());
    assert!(ring.key_for(&"k1".to_owned(), 1_001).is_none());
    assert!(KeyRing::new().key_for(&"k1".to_owned(), 0).is_none());
}

#[test]
fn only_file_jwks_sources_are_fetched() {
    assert!(check_jwks_scheme("file").is_ok());
    assert!(matches!(
        check_jwks_scheme("https"),
        Err(JwtDecoderError::JwksFetchError { message }) if message == "Unsupported JWKS URL scheme `https`"
    ));
    assert!(matches!(jwks_fetch_timed_out(), JwtDecoderError::JwksFetchError { message } if message == "timed out"));
    assert!(matches!(
        jwks_path_missing(),
        JwtDecoderError::JwksFetchError { message } if message == "Failed to extract path from file URL"
    ));
}

fn decoder_config(algorithms: Vec<Algorithm>) -> JwtDecoder {
    JwtDecoder {
        jwks_urls: vec![Locator::parse("file:///tmp/keys.jwks").unwrap()],
        algorithms,
        required_spec_claims: Vec::new(),
        valid_audiences: Vec::new(),
        valid_issuers: Vec::new(),
        jwks_max_wait_millis: None,
        jwks_ttl_millis: None,
        kind: JwtDecoderKind::Tokio(TokioJwtDecoder {}),
    }
}

#[test]
fn decoder_settings_apply_defaults() {
    let settings = decoder_config(Vec::new()).settings();
    assert_eq!(settings.ttl_millis, 60_000);
    assert_eq!(settings.ttl_millis, DEFAULT_JWKS_TTL_MILLIS);
    assert_eq!(settings.max_wait_millis, 1_000);
    assert_eq!(settings.max_wait_millis, DEFAULT_JWKS_MAX_WAIT_MILLIS);
    assert_eq!(settings.jwks_urls.len(), 1);
}

#[test]
fn decoder_validation_follows_configured_algorithms() {
    let ring = ring(1_000);
    let key = ring.key_for(&"k1".to_owned(), 10).unwrap();
    let signed = token(Some("k1"), b"secret");
    let default_settings = decoder_config(Vec::new()).settings();
    assert!(matches!(
        decode_token(&signed, key, &default_settings.validation),
        Err(JwtDecoderError::ValidationFailed { .. })
    ));
    let hmac_settings = decoder_config(vec![Algorithm::HS256]).settings();
    let data = decode_token(&signed, key, &hmac_settings.validation).unwrap();
    assert_eq!(data.claims["exp"], 4000000000u64);
}

#[test]
fn ring_candidates_follow_source_order() {
    let first = parse_jwks(br#"{"keys":[{"kty":"oct","k":"b3RoZXI","kid":"k9"}]}"#);
    let failed = Err(JwtDecoderError::new_jwks_fetch_error("down".to_owned()));
    let second = parse_jwks(SECRET_JWKS.as_bytes());
    let ring = KeyRing::build(&vec![
        Some(FetchedJwks { jwks: failed, expiration: 5 }),
        Some(FetchedJwks { jwks: first, expiration: 50 }),
        None,
        Some(FetchedJwks { jwks: second, expiration: 500 }),
    ]);
    assert!(ring.key_for(&"k9".to_owned(), 50).is_some());
    assert!(ring.key_for(&"k9".to_owned(), 51).is_none());
    assert!(ring.key_for(&"k1".to_owned(), 500).is_some());
    assert!(matches!(
        ring.require_key(&"k1".to_owned(), 501),
        Err(JwtDecoderError::MissingKeyId)
    ));
}

#[test]
fn answers_map_to_results() {
    assert!(matches!(
        decoded_or_invalid(Err("InvalidSignature".to_owned())),
        Err(JwtDecoderError::ValidationFailed { message }) if message == "InvalidSignature"
    ));
    assert!(matches!(
        jwks_or_fetch_error(Err("EOF".to_owned())),
        Err(JwtDecoderError::JwksFetchError { message }) if message == "EOF"
    ));
    let set = parse_jwks(SECRET_JWKS.as_bytes()).unwrap();
    assert_eq!(jwks_or_fetch_error(Ok(set)).unwrap().keys.len(), 3);
}

#[test]
fn validation_plan_keeps_configured_lists() {
    let mut config = decoder_config(vec![Algorithm::HS256]);
    config.valid_audiences = vec!["users".to_owned()];
    let settings = config.settings();
    assert_eq!(settings.validation_plan.algorithms, Some(vec![Algorithm::HS256]));
    assert_eq!(settings.validation_plan.valid_audiences, Some(vec!["users".to_owned()]));
    assert_eq!(settings.validation_plan.valid_issuers, None);
    assert_eq!(settings.validation_plan.required_spec_claims, None);
}
