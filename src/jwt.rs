//! JWT decoding: its configuration, its failures, and the steps around
//! the token library.
use vstd::prelude::*;

use crate::locator::Locator;
use crate::text::same_text;

verus! {

/// How long a fetched JWKS is kept when the configuration names no
/// time-to-live: one minute.
pub const DEFAULT_JWKS_TTL_MILLIS: u64 = 60_000;

/// The longest a JWKS fetch may run when the configuration names no bound:
/// one second.
pub const DEFAULT_JWKS_MAX_WAIT_MILLIS: u64 = 1_000;

#[verifier::external_type_specification]
#[verifier::external_body]
pub struct ExAlgorithm(jsonwebtoken::Algorithm);

/// How a JWT decoder is configured: where its key sets come from, and
/// what a token must satisfy.
#[derive(Debug)]
pub struct JwtDecoder {
    /// The key set sources, in descending priority.
    pub jwks_urls: Vec<Locator>,
    pub algorithms: Vec<jsonwebtoken::Algorithm>,
    pub required_spec_claims: Vec<String>,
    pub valid_audiences: Vec<String>,
    pub valid_issuers: Vec<String>,
    pub jwks_max_wait_millis: Option<u64>,
    pub jwks_ttl_millis: Option<u64>,
    pub kind: JwtDecoderKind,
}

/// What the validation of tokens is made of: each list that is configured
/// replaces the default it stands for; `None` keeps the default (RS256, a
/// required `exp`, any audience, any issuer).
#[derive(Debug)]
pub struct ValidationPlan {
    pub algorithms: Option<Vec<jsonwebtoken::Algorithm>>,
    pub required_spec_claims: Option<Vec<String>>,
    pub valid_audiences: Option<Vec<String>>,
    pub valid_issuers: Option<Vec<String>>,
}

/// A configured list, where it holds anything.
pub open spec fn configured<T>(items: Vec<T>) -> Option<Vec<T>> {
    if items@.len() > 0 {
        Some(items)
    } else {
        None
    }
}

fn configured_list<T>(items: Vec<T>) -> (r: Option<Vec<T>>)
    ensures
        r == configured(items),
{
    if items.len() > 0 {
        Some(items)
    } else {
        None
    }
}

/// The validation a plan describes.
fn validation_for(plan: &ValidationPlan) -> jsonwebtoken::Validation {
    let mut validation = rs256_validation();
    if let Some(algorithms) = &plan.algorithms {
        set_algorithms(&mut validation, algorithms);
    }
    if let Some(claims) = &plan.required_spec_claims {
        set_required_spec_claims(&mut validation, claims);
    }
    if let Some(audiences) = &plan.valid_audiences {
        set_audience(&mut validation, audiences);
    }
    if let Some(issuers) = &plan.valid_issuers {
        set_issuer(&mut validation, issuers);
    }
    validation
}

/// What a JWT decoder runs with, once the defaults are applied.
pub struct JwtDecoderSettings {
    pub jwks_urls: Vec<Locator>,
    /// The decisions the validation was made of.
    pub validation_plan: ValidationPlan,
    /// The validation, made of the plan.
    pub validation: jsonwebtoken::Validation,
    pub max_wait_millis: u64,
    pub ttl_millis: u64,
}

/// Relies on `jsonwebtoken::Validation::new`: a validation of RS256 tokens
/// that requires an `exp` claim.
#[verifier::external_body]
fn rs256_validation() -> jsonwebtoken::Validation {
    jsonwebtoken::Validation::new(jsonwebtoken::Algorithm::RS256)
}

/// Relies on the `algorithms` field of `jsonwebtoken::Validation`: the
/// algorithms a token may be signed with.
#[verifier::external_body]
fn set_algorithms(validation: &mut jsonwebtoken::Validation, algorithms: &Vec<jsonwebtoken::Algorithm>) {
    validation.algorithms = algorithms.clone();
}

/// Relies on `jsonwebtoken::Validation::set_required_spec_claims`.
#[verifier::external_body]
fn set_required_spec_claims(validation: &mut jsonwebtoken::Validation, claims: &Vec<String>) {
    validation.set_required_spec_claims(claims);
}

/// Relies on `jsonwebtoken::Validation::set_audience`.
#[verifier::external_body]
fn set_audience(validation: &mut jsonwebtoken::Validation, audiences: &Vec<String>) {
    validation.set_audience(audiences);
}

/// Relies on `jsonwebtoken::Validation::set_issuer`.
#[verifier::external_body]
fn set_issuer(validation: &mut jsonwebtoken::Validation, issuers: &Vec<String>) {
    validation.set_issuer(issuers);
}

impl JwtDecoder {
    /// The key sets' time-to-live the configuration asks for, or the default.
    pub open spec fn spec_ttl_millis(&self) -> u64 {
        match self.jwks_ttl_millis {
            Some(t) => t,
            None => DEFAULT_JWKS_TTL_MILLIS,
        }
    }

    /// The bound on a key set fetch the configuration asks for, or the
    /// default.
    pub open spec fn spec_max_wait_millis(&self) -> u64 {
        match self.jwks_max_wait_millis {
            Some(t) => t,
            None => DEFAULT_JWKS_MAX_WAIT_MILLIS,
        }
    }

    /// Applies the defaults, and makes the validation: RS256 and a
    /// required `exp` unless algorithms or required claims are configured;
    /// audiences and issuers checked where any are configured.
    pub fn settings(self) -> (r: JwtDecoderSettings)
        ensures
            r.jwks_urls == self.jwks_urls,
            r.ttl_millis == self.spec_ttl_millis(),
            r.max_wait_millis == self.spec_max_wait_millis(),
            r.validation_plan.algorithms == configured(self.algorithms),
            r.validation_plan.required_spec_claims == configured(self.required_spec_claims),
            r.validation_plan.valid_audiences == configured(self.valid_audiences),
            r.validation_plan.valid_issuers == configured(self.valid_issuers),
    {
        let ttl_millis = match self.jwks_ttl_millis {
            Some(t) => t,
            None => DEFAULT_JWKS_TTL_MILLIS,
        };
        let max_wait_millis = match self.jwks_max_wait_millis {
            Some(t) => t,
            None => DEFAULT_JWKS_MAX_WAIT_MILLIS,
        };
        let validation_plan = ValidationPlan {
            algorithms: configured_list(self.algorithms),
            required_spec_claims: configured_list(self.required_spec_claims),
            valid_audiences: configured_list(self.valid_audiences),
            valid_issuers: configured_list(self.valid_issuers),
        };
        let validation = validation_for(&validation_plan);
        JwtDecoderSettings {
            jwks_urls: self.jwks_urls,
            validation_plan,
            validation,
            max_wait_millis,
            ttl_millis,
        }
    }
}

/// The runtime a JWT decoder runs on.
#[derive(Clone, Debug)]
#[non_exhaustive]
pub enum JwtDecoderKind {
    Tokio(TokioJwtDecoder),
}

/// The options of the tokio JWT decoder.
#[derive(Clone, Debug)]
pub struct TokioJwtDecoder {}

/// The failures of JWT decoding.
#[derive(Clone, Debug)]
pub enum JwtDecoderError {
    HeaderParsingFailed { message: String },
    InternalError { message: String },
    JwksFetchError { message: String },
    FailedPrecondition { message: String },
    MissingKeyId,
    ServiceUnavailable { message: String },
    UnsupportedJwk { kid: String, message: String },
    ValidationFailed { message: String },
}

impl JwtDecoderKind {
    /// The kind's name.
    pub fn as_str(&self) -> (r: &'static str)
        ensures
            r@ == "Tokio"@,
    {
        match self {
            JwtDecoderKind::Tokio(_) => "Tokio",
        }
    }
}

impl JwtDecoderError {
    pub fn new_header_parsing_failed(message: String) -> (r: Self)
        ensures
            r == (JwtDecoderError::HeaderParsingFailed { message }),
    {
        JwtDecoderError::HeaderParsingFailed { message }
    }

    pub fn new_internal_error(message: String) -> (r: Self)
        ensures
            r == (JwtDecoderError::InternalError { message }),
    {
        JwtDecoderError::InternalError { message }
    }

    pub fn new_jwks_fetch_error(message: String) -> (r: Self)
        ensures
            r == (JwtDecoderError::JwksFetchError { message }),
    {
        JwtDecoderError::JwksFetchError { message }
    }

    pub fn new_failed_precondition(message: String) -> (r: Self)
        ensures
            r == (JwtDecoderError::FailedPrecondition { message }),
    {
        JwtDecoderError::FailedPrecondition { message }
    }

    pub fn new_service_unavailable(message: String) -> (r: Self)
        ensures
            r == (JwtDecoderError::ServiceUnavailable { message }),
    {
        JwtDecoderError::ServiceUnavailable { message }
    }

    pub fn new_validation_failed(message: String) -> (r: Self)
        ensures
            r == (JwtDecoderError::ValidationFailed { message }),
    {
        JwtDecoderError::ValidationFailed { message }
    }

    pub fn new_missing_key_id() -> (r: Self)
        ensures
            r is MissingKeyId,
    {
        JwtDecoderError::MissingKeyId
    }

    pub fn new_unsupported_jwk(kid: String, message: String) -> (r: Self)
        ensures
            r == (JwtDecoderError::UnsupportedJwk { kid, message }),
    {
        JwtDecoderError::UnsupportedJwk { kid, message }
    }
}

#[verifier::external_type_specification]
#[verifier::external_body]
pub struct ExValidation(jsonwebtoken::Validation);

#[verifier::external_type_specification]
#[verifier::external_body]
pub struct ExJsonValue(serde_json::Value);

#[verifier::external_type_specification]
#[verifier::external_body]
#[verifier::reject_recursive_types(T)]
pub struct ExTokenData<T>(jsonwebtoken::TokenData<T>);

/// What `jsonwebtoken::decode_header` makes of a token: the key id its
/// header names, if any, or the text of the error that says why the header
/// cannot be read.
pub uninterp spec fn token_header_kid(token: Seq<char>) -> Result<Option<Seq<char>>, Seq<char>>;

/// Relies on `jsonwebtoken::decode_header`, which reads the token alone:
/// the key id the token's header names, if any, or why the header cannot
/// be read.
#[verifier::external_body]
fn header_key_id(token: &str) -> (r: Result<Option<String>, String>)
    ensures
        r matches Ok(Some(k)) ==> token_header_kid(token@) matches Ok(Some(h)) && h == k@,
        r matches Ok(None) ==> token_header_kid(token@) matches Ok(None),
        r matches Err(m) ==> token_header_kid(token@) matches Err(e) && e == m@,
{
    jsonwebtoken::decode_header(token).map(|header| header.kid).map_err(|err| err.to_string())
}

/// Relies on `jsonwebtoken::decode`: the token's header and claims when
/// its signature and claims pass the validation, or why they do not.
#[verifier::external_body]
fn decode_with_key(
    token: &str,
    key: &jsonwebtoken::DecodingKey,
    validation: &jsonwebtoken::Validation,
) -> Result<jsonwebtoken::TokenData<serde_json::Value>, String> {
    jsonwebtoken::decode(token, key, validation).map_err(|err| err.to_string())
}

/// Relies on `serde_json::from_slice`: the JWKS that the bytes hold as
/// JSON, or why they hold none.
#[verifier::external_body]
fn jwk_set_from_json(data: &[u8]) -> Result<jsonwebtoken::jwk::JwkSet, String> {
    serde_json::from_slice(data).map_err(|err| err.to_string())
}

/// The key id of a read header: the id it names; a header without a key
/// id fails validation, and a header that could not be read fails as such.
pub fn key_id_from_header(header: Result<Option<String>, String>) -> (r: Result<
    String,
    JwtDecoderError,
>)
    ensures
        header matches Ok(Some(k)) ==> r matches Ok(kid) && kid == k,
        header matches Ok(None) ==> r matches Err(JwtDecoderError::ValidationFailed { message })
            && message@ == "Header missing kid"@,
        header matches Err(m) ==> r matches Err(e) && e == (JwtDecoderError::HeaderParsingFailed {
            message: m,
        }),
{
    match header {
        Ok(Some(kid)) => Ok(kid),
        Ok(None) => Err(JwtDecoderError::new_validation_failed(String::from_str("Header missing kid"))),
        Err(message) => Err(JwtDecoderError::new_header_parsing_failed(message)),
    }
}

/// The key id that a token's header names.
pub fn token_key_id(token: &str) -> (r: Result<String, JwtDecoderError>)
    ensures
        token_header_kid(token@) matches Ok(Some(k)) ==> r matches Ok(kid) && kid@ == k,
        token_header_kid(token@) matches Ok(None) ==> r matches Err(
            JwtDecoderError::ValidationFailed { message },
        ) && message@ == "Header missing kid"@,
        token_header_kid(token@) matches Err(m) ==> r matches Err(
            JwtDecoderError::HeaderParsingFailed { message },
        ) && message@ == m,
{
    key_id_from_header(header_key_id(token))
}

/// Whether a JWKS source can be fetched: only sources of the `file` scheme
/// can; any other fails as a fetch error that names the scheme.
pub fn check_jwks_scheme(scheme: &str) -> (r: Result<(), JwtDecoderError>)
    ensures
        r is Ok <==> scheme@ == "file"@,
        r matches Err(e) ==> e matches JwtDecoderError::JwksFetchError { message } && message@
            == "Unsupported JWKS URL scheme `"@ + scheme@ + "`"@,
{
    if same_text(scheme, "file") {
        Ok(())
    } else {
        Err(
            JwtDecoderError::new_jwks_fetch_error(
                String::from_str("Unsupported JWKS URL scheme `").concat(scheme).concat("`"),
            ),
        )
    }
}

/// The failure of a `file` JWKS source whose URL names no path.
pub fn jwks_path_missing() -> (e: JwtDecoderError)
    ensures
        e matches JwtDecoderError::JwksFetchError { message } && message@
            == "Failed to extract path from file URL"@,
{
    JwtDecoderError::new_jwks_fetch_error(String::from_str("Failed to extract path from file URL"))
}

/// The failure of a JWKS fetch that ran past its bound.
pub fn jwks_fetch_timed_out() -> (e: JwtDecoderError)
    ensures
        e matches JwtDecoderError::JwksFetchError { message } && message@ == "timed out"@,
{
    JwtDecoderError::new_jwks_fetch_error(String::from_str("timed out"))
}

/// Decodes a token with the key its header names. A token that fails the
/// validation fails as such, with the reason as the message.
/// Whether the signature and claims are checked is decided by the token
/// library, against the clock; what is returned for each of its answers is
/// decided by [`decoded_or_invalid`].
pub fn decode_token(
    token: &str,
    key: &jsonwebtoken::DecodingKey,
    validation: &jsonwebtoken::Validation,
) -> (r: Result<jsonwebtoken::TokenData<serde_json::Value>, JwtDecoderError>)
    ensures
        r matches Err(e) ==> e is ValidationFailed,
{
    decoded_or_invalid(decode_with_key(token, key, validation))
}

/// The result of decoding, from the token library's answer: the decoded
/// token as it is, or a validation failure that carries the reason.
pub fn decoded_or_invalid(
    answer: Result<jsonwebtoken::TokenData<serde_json::Value>, String>,
) -> (r: Result<jsonwebtoken::TokenData<serde_json::Value>, JwtDecoderError>)
    ensures
        answer matches Ok(data) ==> r matches Ok(d) && d == data,
        answer matches Err(m) ==> r matches Err(e) && e == (JwtDecoderError::ValidationFailed {
            message: m,
        }),
{
    match answer {
        Ok(data) => Ok(data),
        Err(message) => Err(JwtDecoderError::new_validation_failed(message)),
    }
}

/// Reads a JWKS from the bytes of a JSON document; bytes that hold none
/// fail as a fetch error. What the JSON parser makes of the bytes decides;
/// what is returned for each of its answers is decided by [`jwks_or_fetch_error`].
pub fn parse_jwks(data: &[u8]) -> (r: Result<jsonwebtoken::jwk::JwkSet, JwtDecoderError>)
    ensures
        r matches Err(e) ==> e is JwksFetchError,
{
    jwks_or_fetch_error(jwk_set_from_json(data))
}

/// The result of reading a JWKS, from the JSON parser's answer: the set as
/// it is, or a fetch error that carries the parser's message.
pub fn jwks_or_fetch_error(answer: Result<jsonwebtoken::jwk::JwkSet, String>) -> (r: Result<
    jsonwebtoken::jwk::JwkSet,
    JwtDecoderError,
>)
    ensures
        answer matches Ok(set) ==> r matches Ok(s) && s == set,
        answer matches Err(m) ==> r matches Err(e) && e == (JwtDecoderError::JwksFetchError {
            message: m,
        }),
{
    match answer {
        Ok(set) => Ok(set),
        Err(message) => Err(JwtDecoderError::new_jwks_fetch_error(message)),
    }
}

} // verus!
