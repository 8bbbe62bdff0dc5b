//! Audio-message exchange service core.
//!
//! The verified heart of the service is the pair of duplex-channel session
//! state machines in [`manage_user_message`]: an ingest session that
//! accumulates a binary payload frame by frame and commits it once on close,
//! and a playback session that streams a stored payload back out in fixed-size
//! chunks. Around them stand the durable record types, the request/response
//! schemas, and the error taxonomy shared by all handlers.

use vstd::prelude::*;

pub mod db_types;
pub mod handlers;
pub mod manage_user_message;
pub mod request;
pub mod response;
pub mod session_laws;

verus! {

/// Major version reported by the service-information endpoint.
pub const VERSION_MAJOR: i64 = 0;

/// Minor version reported by the service-information endpoint.
pub const VERSION_MINOR: i64 = 0;

/// Revision reported by the service-information endpoint.
pub const VERSION_REV: i64 = 1;

} // verus!
