//! Durable record kinds held in the relational store.
//!
//! Ids and creation times are assigned by the store on insert and never
//! change afterwards; the remaining fields are set once at insert time.

use vstd::prelude::*;

verus! {

/// A stored audio message: one creator, one target, one byte payload.
#[derive(Clone, Debug)]
pub struct UserMessage {
    pub user_message_id: i64,
    pub creation_time: i64,
    pub creator_user_id: i64,
    pub target_user_id: i64,
    pub audio_data: Vec<u8>,
}

/// A stored sleep event: records that a user slept, nothing more.
#[derive(Clone, Debug)]
pub struct SleepEvent {
    pub sleep_event_id: i64,
    pub creation_time: i64,
    pub creator_user_id: i64,
}

} // verus!
