//! Request schemas, as the peer sends them. The transport deserialization
//! lives outside the library; these hold the plain values it carries.

use vstd::prelude::*;

verus! {

/// Submit one message: target, base64 payload, credential.
#[derive(Clone, Debug)]
pub struct UserMessageNewProps {
    pub target_user_id: i64,
    pub audio_data: String,
    pub api_key: String,
}

/// Record one sleep event for the credential's owner.
#[derive(Clone, Debug)]
pub struct SleepEventNewProps {
    pub api_key: String,
}

/// Query stored messages; every filter is optional.
#[derive(Clone, Debug)]
pub struct UserMessageViewProps {
    pub user_message_id: Option<Vec<i64>>,
    pub min_creation_time: Option<i64>,
    pub max_creation_time: Option<i64>,
    pub creator_user_id: Option<Vec<i64>>,
    pub target_user_id: Option<Vec<i64>>,
    pub only_recent: bool,
    pub api_key: String,
}

/// Query stored sleep events; every filter is optional.
#[derive(Clone, Debug)]
pub struct SleepEventViewProps {
    pub sleep_event_id: Option<Vec<i64>>,
    pub min_creation_time: Option<i64>,
    pub max_creation_time: Option<i64>,
    pub creator_user_id: Option<Vec<i64>>,
    pub api_key: String,
}

/// Open a submit channel toward a target user.
#[derive(Clone, Debug)]
pub struct UserMessageSubmitProps {
    pub target_user_id: i64,
    pub api_key: String,
}

/// Open a receive channel for one stored message.
#[derive(Clone, Debug)]
pub struct UserMessageReceiveProps {
    pub user_message_id: i64,
    pub api_key: String,
}

/// Ask for the newest message id addressed to a target user.
#[derive(Clone, Debug)]
pub struct GetRecentUserMessageIdProps {
    pub target_user_id: i64,
}

/// Record one sleep event, creator given in the query string.
#[derive(Clone, Debug)]
pub struct QueryParamsSleepEventProps {
    pub creator_user_id: i64,
}

} // verus!
