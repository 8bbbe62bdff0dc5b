//! The error taxonomy shared by every handler, and the pure parts of the
//! request handlers: mapping collaborator errors onto [`AppError`], and
//! turning stored records into response schemas.
//!
//! The surrounding HTTP and database plumbing is not part of the library; the
//! functions here take and return plain values.

use vstd::prelude::*;
use vstd::string::StringExecFns;

use base64::Engine;

use crate::db_types::{SleepEvent, UserMessage};
use crate::response;

verus! {

/// Everything a handler can answer instead of a successful response.
#[derive(Clone, Copy, Debug, PartialEq, Eq)]
pub enum AppError {
    DecodeError,
    InternalServerError,
    Unauthorized,
    BadRequest,
    NotFound,
    Unknown,
}

impl AppError {
    /// The HTTP status code this error is reported with.
    pub open spec fn spec_status_code(self) -> u16 {
        match self {
            AppError::DecodeError => 502,
            AppError::InternalServerError => 500,
            AppError::Unauthorized => 401,
            AppError::BadRequest => 400,
            AppError::NotFound => 404,
            AppError::Unknown => 500,
        }
    }

    /// HTTP status code of the error response.
    pub fn status_code(&self) -> (code: u16)
        ensures
            code == self.spec_status_code(),
    {
        match self {
            AppError::DecodeError => 502,
            AppError::InternalServerError => 500,
            AppError::Unauthorized => 401,
            AppError::BadRequest => 400,
            AppError::NotFound => 404,
            AppError::Unknown => 500,
        }
    }

    /// The error's display name.
    pub open spec fn spec_text(self) -> Seq<char> {
        match self {
            AppError::DecodeError => "DecodeError"@,
            AppError::InternalServerError => "InternalServerError"@,
            AppError::Unauthorized => "Unauthorized"@,
            AppError::BadRequest => "BadRequest"@,
            AppError::NotFound => "NotFound"@,
            AppError::Unknown => "Unknown"@,
        }
    }

    /// Display name of the error, used in close-handshake descriptions.
    pub fn to_text(&self) -> (s: String)
        ensures
            s@ == self.spec_text(),
    {
        match self {
            AppError::DecodeError => String::from_str("DecodeError"),
            AppError::InternalServerError => String::from_str("InternalServerError"),
            AppError::Unauthorized => String::from_str("Unauthorized"),
            AppError::BadRequest => String::from_str("BadRequest"),
            AppError::NotFound => String::from_str("NotFound"),
            AppError::Unknown => String::from_str("Unknown"),
        }
    }
}

/// The identity provider's error taxonomy, as the handlers read it. The
/// provider's client lives outside the library; callers hand its verdict over
/// as one of these plain values.
#[derive(Clone, Copy, Debug, PartialEq, Eq)]
pub enum AuthError {
    ApiKeyNonexistent,
    ApiKeyUnauthorized,
    InternalServerError,
    MethodNotAllowed,
    BadRequest,
    Network,
    Other,
}

/// How an identity-provider error is reported: bad credentials are the
/// caller's fault, provider-side failures are internal, and anything
/// unforeseen is unknown.
pub open spec fn spec_report_auth_err(e: AuthError) -> AppError {
    match e {
        AuthError::ApiKeyNonexistent => AppError::Unauthorized,
        AuthError::ApiKeyUnauthorized => AppError::Unauthorized,
        AuthError::InternalServerError => AppError::InternalServerError,
        AuthError::MethodNotAllowed => AppError::InternalServerError,
        AuthError::BadRequest => AppError::InternalServerError,
        AuthError::Network => AppError::InternalServerError,
        AuthError::Other => AppError::Unknown,
    }
}

/// Map an identity-provider error onto the handler error it is answered with.
pub fn report_auth_err(e: AuthError) -> (r: AppError)
    ensures
        r == spec_report_auth_err(e),
{
    match e {
        AuthError::ApiKeyNonexistent => AppError::Unauthorized,
        AuthError::ApiKeyUnauthorized => AppError::Unauthorized,
        AuthError::InternalServerError => AppError::InternalServerError,
        AuthError::MethodNotAllowed => AppError::InternalServerError,
        AuthError::BadRequest => AppError::InternalServerError,
        AuthError::Network => AppError::InternalServerError,
        AuthError::Other => AppError::Unknown,
    }
}

/// Declares `tokio_postgres::Error`, the database client's error type, so it
/// can appear in signatures; the library never looks inside it.
#[verifier::external_type_specification]
#[verifier::external_body]
pub struct ExPostgresError(tokio_postgres::Error);

/// Declares `deadpool::managed::PoolError`, the connection pool's error type
/// (`deadpool_postgres::PoolError` is its alias); the library never looks
/// inside it.
#[verifier::external_type_specification]
#[verifier::external_body]
#[verifier::reject_recursive_types(E)]
pub struct ExPoolError<E>(deadpool::managed::PoolError<E>);

/// Declares `serde_json::Error`, the JSON codec's error type; the library
/// never looks inside it.
#[verifier::external_type_specification]
#[verifier::external_body]
pub struct ExSerdeJsonError(serde_json::Error);

/// Declares `base64::DecodeError`, the base64 engine's error type; the
/// library never looks inside it.
#[verifier::external_type_specification]
#[verifier::external_body]
pub struct ExDecodeError(base64::DecodeError);

/// Every database failure is reported uniformly as an internal error; the
/// peer learns nothing about the store.
pub fn report_postgres_err(_e: tokio_postgres::Error) -> (r: AppError)
    ensures
        r == AppError::InternalServerError,
{
    AppError::InternalServerError
}

/// A connection-pool failure is the service's own fault: internal error.
pub fn report_pool_err(_e: deadpool_postgres::PoolError) -> (r: AppError)
    ensures
        r == AppError::InternalServerError,
{
    AppError::InternalServerError
}

/// Serialization the service itself got wrong: internal error.
pub fn report_internal_serde_error(_e: serde_json::Error) -> (r: AppError)
    ensures
        r == AppError::InternalServerError,
{
    AppError::InternalServerError
}

/// A request body the peer got wrong: decode error.
pub fn report_serde_error(_e: serde_json::Error) -> (r: AppError)
    ensures
        r == AppError::DecodeError,
{
    AppError::DecodeError
}

/// A base64 payload the peer got wrong: decode error.
pub fn report_base64_err(_e: base64::DecodeError) -> (r: AppError)
    ensures
        r == AppError::DecodeError,
{
    AppError::DecodeError
}

/// What base64's unpadded standard engine encodes a byte sequence to; the
/// encoding depends on the bytes alone.
pub uninterp spec fn b64_encoding_of(b: Seq<u8>) -> Seq<char>;

/// What base64's unpadded standard engine decodes a character sequence to, if
/// it decodes at all; the outcome depends on the characters alone.
pub uninterp spec fn b64_decoding_of(s: Seq<char>) -> Option<Seq<u8>>;

/// Relies on base64's `Engine::encode` with the `STANDARD_NO_PAD` engine: the
/// unpadded encoding emits four characters per full three-byte group and two
/// or three characters for a trailing group of one or two bytes.
#[verifier::external_body]
fn b64_encode(b: &Vec<u8>) -> (r: String)
    ensures
        r@ == b64_encoding_of(b@),
        r@.len() == 4 * (b@.len() / 3) + (if b@.len() % 3 == 0 {
            0nat
        } else if b@.len() % 3 == 1 {
            2nat
        } else {
            3nat
        }),
{
    base64::engine::general_purpose::STANDARD_NO_PAD.encode(b)
}

/// Relies on base64's `Engine::decode` with the `STANDARD_NO_PAD` engine:
/// deterministic decoding that rejects padding, invalid characters and
/// invalid lengths.
#[verifier::external_body]
fn b64_decode(s: &String) -> (r: Result<Vec<u8>, base64::DecodeError>)
    ensures
        (r is Ok) == (b64_decoding_of(s@) is Some),
        r matches Ok(b) ==> Some(b@) == b64_decoding_of(s@),
{
    base64::engine::general_purpose::STANDARD_NO_PAD.decode(s.as_str())
}

/// Decode a request's base64 audio payload; malformed input is rejected with
/// the decode error, exactly when the engine rejects it.
pub fn decode_audio_data(s: &String) -> (r: Result<Vec<u8>, AppError>)
    ensures
        (r is Ok) == (b64_decoding_of(s@) is Some),
        r matches Ok(b) ==> Some(b@) == b64_decoding_of(s@),
        r matches Err(e) ==> e == AppError::DecodeError,
{
    match b64_decode(s) {
        Ok(b) => Ok(b),
        Err(e) => Err(report_base64_err(e)),
    }
}

/// A stored message as the peer sees it: same ids and creation time, payload
/// re-encoded as base64 text.
pub fn fill_user_message(x: UserMessage) -> (r: response::UserMessage)
    ensures
        r.creation_time == x.creation_time,
        r.creator_user_id == x.creator_user_id,
        r.target_user_id == x.target_user_id,
        r.audio_data@ == b64_encoding_of(x.audio_data@),
{
    response::UserMessage {
        creation_time: x.creation_time,
        creator_user_id: x.creator_user_id,
        target_user_id: x.target_user_id,
        audio_data: b64_encode(&x.audio_data),
    }
}

/// A stored sleep event as the peer sees it: creation time and creator.
pub fn fill_sleep_event(x: SleepEvent) -> (r: response::SleepEvent)
    ensures
        r.creation_time == x.creation_time,
        r.creator_user_id == x.creator_user_id,
{
    response::SleepEvent { creation_time: x.creation_time, creator_user_id: x.creator_user_id }
}

/// All queried messages as the peer sees them, in query order.
pub fn fill_user_messages(xs: Vec<UserMessage>) -> (rs: Vec<response::UserMessage>)
    ensures
        rs@.len() == xs@.len(),
        forall|i: int|
            0 <= i < xs@.len() ==> {
                &&& (#[trigger] rs@[i]).creation_time == xs@[i].creation_time
                &&& rs@[i].creator_user_id == xs@[i].creator_user_id
                &&& rs@[i].target_user_id == xs@[i].target_user_id
                &&& rs@[i].audio_data@ == b64_encoding_of(xs@[i].audio_data@)
            },
{
    let ghost orig = xs@;
    let mut xs = xs;
    let mut rs: Vec<response::UserMessage> = Vec::new();
    while xs.len() > 0
        invariant
            rs@.len() + xs@.len() == orig.len(),
            xs@ == orig.subrange(rs@.len() as int, orig.len() as int),
            forall|i: int|
                0 <= i < rs@.len() ==> {
                    &&& (#[trigger] rs@[i]).creation_time == orig[i].creation_time
                    &&& rs@[i].creator_user_id == orig[i].creator_user_id
                    &&& rs@[i].target_user_id == orig[i].target_user_id
                    &&& rs@[i].audio_data@ == b64_encoding_of(orig[i].audio_data@)
                },
        decreases xs@.len(),
    {
        let x = xs.remove(0);
        assert(x == orig[rs@.len() as int]);
        rs.push(fill_user_message(x));
        proof {
            assert(xs@ =~= orig.subrange(rs@.len() as int, orig.len() as int));
        }
    }
    rs
}

/// All queried sleep events as the peer sees them, in query order.
pub fn fill_sleep_events(xs: Vec<SleepEvent>) -> (rs: Vec<response::SleepEvent>)
    ensures
        rs@.len() == xs@.len(),
        forall|i: int|
            0 <= i < xs@.len() ==> {
                &&& (#[trigger] rs@[i]).creation_time == xs@[i].creation_time
                &&& rs@[i].creator_user_id == xs@[i].creator_user_id
            },
{
    let ghost orig = xs@;
    let mut xs = xs;
    let mut rs: Vec<response::SleepEvent> = Vec::new();
    while xs.len() > 0
        invariant
            rs@.len() + xs@.len() == orig.len(),
            xs@ == orig.subrange(rs@.len() as int, orig.len() as int),
            forall|i: int|
                0 <= i < rs@.len() ==> {
                    &&& (#[trigger] rs@[i]).creation_time == orig[i].creation_time
                    &&& rs@[i].creator_user_id == orig[i].creator_user_id
                },
        decreases xs@.len(),
    {
        let x = xs.remove(0);
        assert(x == orig[rs@.len() as int]);
        rs.push(fill_sleep_event(x));
        proof {
            assert(xs@ =~= orig.subrange(rs@.len() as int, orig.len() as int));
        }
    }
    rs
}

/// The service-information response: this service's own name and version,
/// joined with what the identity provider reported about itself.
pub fn info_response(
    app_pub_origin: String,
    auth_pub_api_href: String,
    auth_authenticator_href: String,
) -> (r: response::Info)
    ensures
        r.service@ == "kthg"@,
        r.version_major == crate::VERSION_MAJOR,
        r.version_minor == crate::VERSION_MINOR,
        r.version_rev == crate::VERSION_REV,
        r.app_pub_origin == app_pub_origin,
        r.auth_pub_api_href == auth_pub_api_href,
        r.auth_authenticator_href == auth_authenticator_href,
{
    response::Info {
        service: String::from_str("kthg"),
        version_major: crate::VERSION_MAJOR,
        version_minor: crate::VERSION_MINOR,
        version_rev: crate::VERSION_REV,
        app_pub_origin,
        auth_pub_api_href,
        auth_authenticator_href,
    }
}

} // verus!
