//! Response schemas, as the peer receives them. The transport serialization
//! lives outside the library; these hold the plain values it carries.

use vstd::prelude::*;

verus! {

/// A stored message, payload encoded as base64 text.
#[derive(Clone, Debug)]
pub struct UserMessage {
    pub creation_time: i64,
    pub creator_user_id: i64,
    pub target_user_id: i64,
    pub audio_data: String,
}

/// A stored sleep event.
#[derive(Clone, Debug)]
pub struct SleepEvent {
    pub creation_time: i64,
    pub creator_user_id: i64,
}

/// What the service says about itself.
#[derive(Clone, Debug)]
pub struct Info {
    pub service: String,
    pub version_major: i64,
    pub version_minor: i64,
    pub version_rev: i64,
    pub app_pub_origin: String,
    pub auth_pub_api_href: String,
    pub auth_authenticator_href: String,
}

} // verus!
