use kthg::db_types::UserMessage;
use kthg::handlers::AppError;
use kthg::manage_user_message::{
    CloseCode, CloseReason, Event, Frame, IngestAction, IngestSession, PlaybackAction,
    PlaybackSession, SessionState, BLOCK_SIZE, CLIENT_TIMEOUT,
};

fn message_with_payload(payload: Vec<u8>) -> UserMessage {
    UserMessage {
        user_message_id: 1,
        creation_time: 2,
        creator_user_id: 3,
        target_user_id: 4,
        audio_data: payload,
    }
}

#[test]
fn ingest_stores_concatenation_of_binary_frames() {
    let mut s = IngestSession::new(0);
    assert_eq!(s.state, SessionState::Active);
    assert!(s.audio_data.is_empty());

    let a1 = s.handle_event(Event::Frame(Frame::Binary(vec![0x01, 0x02])), 1);
    assert_eq!(a1, IngestAction::Stay);
    let a2 = s.handle_event(Event::Frame(Frame::Binary(vec![0x03])), 2);
    assert_eq!(a2, IngestAction::Stay);
    let a3 = s.handle_event(Event::Frame(Frame::Close(None)), 3);
    assert_eq!(a3, IngestAction::Commit);

    assert_eq!(s.audio_data, vec![0x01, 0x02, 0x03]);
    assert_eq!(s.state, SessionState::Done(None));
}

#[test]
fn ingest_empty_payload_still_commits() {
    let mut s = IngestSession::new(0);
    let a = s.handle_event(Event::Frame(Frame::Close(None)), 1);
    assert_eq!(a, IngestAction::Commit);
    assert_eq!(s.audio_data, Vec::<u8>::new());
    assert_eq!(s.state, SessionState::Done(None));
}

#[test]
fn ingest_times_out_when_peer_stays_quiet() {
    let mut s = IngestSession::new(0);
    let a1 = s.handle_event(Event::Frame(Frame::Binary(vec![0xAA])), 0);
    assert_eq!(a1, IngestAction::Stay);
    let a2 = s.handle_event(Event::Tick, CLIENT_TIMEOUT + 1);
    assert_eq!(a2, IngestAction::Commit);
    assert_eq!(s.state, SessionState::Done(Some(CloseReason::Timeout)));
    // the partial payload is committed, not discarded
    assert_eq!(s.audio_data, vec![0xAA]);
}

#[test]
fn ingest_tick_within_timeout_sends_probe() {
    let mut s = IngestSession::new(0);
    let a = s.handle_event(Event::Tick, CLIENT_TIMEOUT);
    assert_eq!(a, IngestAction::SendPing);
    assert_eq!(s.state, SessionState::Active);
}

#[test]
fn ingest_ping_refreshes_liveness_and_is_answered() {
    let mut s = IngestSession::new(0);
    let a = s.handle_event(Event::Frame(Frame::Ping(vec![7, 8])), 9);
    assert_eq!(a, IngestAction::SendPong(vec![7, 8]));
    // the refresh at 9 keeps the session alive at time 15
    let a2 = s.handle_event(Event::Tick, 15);
    assert_eq!(a2, IngestAction::SendPing);
    assert_eq!(s.state, SessionState::Active);
}

#[test]
fn ingest_pong_refreshes_liveness() {
    let mut s = IngestSession::new(0);
    let a = s.handle_event(Event::Frame(Frame::Pong(vec![])), 9);
    assert_eq!(a, IngestAction::Stay);
    let a2 = s.handle_event(Event::Tick, 19);
    assert_eq!(a2, IngestAction::SendPing);
}

#[test]
fn ingest_text_frame_closes_unsupported() {
    let mut s = IngestSession::new(0);
    s.handle_event(Event::Frame(Frame::Binary(vec![1])), 1);
    let a = s.handle_event(Event::Frame(Frame::Text(String::from("hi"))), 2);
    assert_eq!(a, IngestAction::Commit);
    assert_eq!(s.state, SessionState::Done(Some(CloseReason::UnsupportedText)));
    // nothing is processed after the close
    let a2 = s.handle_event(Event::Frame(Frame::Binary(vec![9])), 3);
    assert_eq!(a2, IngestAction::Stay);
    assert_eq!(s.audio_data, vec![1]);
    assert_eq!(s.state, SessionState::Done(Some(CloseReason::UnsupportedText)));
}

#[test]
fn ingest_continuation_frame_closes_unsupported() {
    let mut s = IngestSession::new(0);
    let a = s.handle_event(Event::Frame(Frame::Continuation), 1);
    assert_eq!(a, IngestAction::Commit);
    assert_eq!(
        s.state,
        SessionState::Done(Some(CloseReason::UnsupportedContinuation))
    );
}

#[test]
fn ingest_noop_is_ignored() {
    let mut s = IngestSession::new(0);
    let a = s.handle_event(Event::Frame(Frame::NoOp), 1);
    assert_eq!(a, IngestAction::Stay);
    assert_eq!(s.state, SessionState::Active);
}

#[test]
fn ingest_stream_error_closes_without_reason() {
    let mut s = IngestSession::new(0);
    s.handle_event(Event::Frame(Frame::Binary(vec![5])), 1);
    let a = s.handle_event(Event::StreamError, 2);
    assert_eq!(a, IngestAction::Commit);
    assert_eq!(s.state, SessionState::Done(None));
    assert_eq!(s.audio_data, vec![5]);
}

#[test]
fn concurrent_ingest_sessions_are_isolated() {
    let mut a = IngestSession::new(0);
    let mut b = IngestSession::new(0);
    // interleave the two sessions' events arbitrarily
    a.handle_event(Event::Frame(Frame::Binary(vec![0x01, 0x02])), 1);
    b.handle_event(Event::Frame(Frame::Binary(vec![0x99])), 1);
    a.handle_event(Event::Frame(Frame::Binary(vec![0x03])), 2);
    b.handle_event(Event::Frame(Frame::Close(None)), 2);
    a.handle_event(Event::Frame(Frame::Close(None)), 3);
    assert_eq!(a.audio_data, vec![0x01, 0x02, 0x03]);
    assert_eq!(b.audio_data, vec![0x99]);
    assert_eq!(a.state, SessionState::Done(None));
    assert_eq!(b.state, SessionState::Done(None));
}

#[test]
fn playback_start_not_found_never_activates() {
    let r = PlaybackSession::start(Ok(None));
    match r {
        Err(reason) => {
            assert_eq!(reason, CloseReason::LoadError(AppError::NotFound));
            assert_eq!(reason.code(), CloseCode::Error);
            assert_eq!(reason.description(), Some(String::from("NotFound")));
        }
        Ok(_) => panic!("a missing record must not start a session"),
    }
}

#[test]
fn playback_start_fetch_error_never_activates() {
    let r = PlaybackSession::start(Err(AppError::InternalServerError));
    match r {
        Err(reason) => {
            assert_eq!(reason, CloseReason::LoadError(AppError::InternalServerError));
            assert_eq!(reason.code(), CloseCode::Error);
            assert_eq!(
                reason.description(),
                Some(String::from("InternalServerError"))
            );
        }
        Ok(_) => panic!("a failed lookup must not start a session"),
    }
}

#[test]
fn playback_streams_2500_bytes_as_1024_1024_452() {
    let payload: Vec<u8> = (0..2500u32).map(|i| (i % 251) as u8).collect();
    let mut s = PlaybackSession::start(Ok(Some(message_with_payload(payload.clone()))))
        .expect("found record starts a session");
    assert_eq!(s.state, SessionState::Active);

    let mut got: Vec<u8> = Vec::new();
    let mut chunk_lens: Vec<usize> = Vec::new();
    loop {
        match s.handle_event(Event::Tick) {
            PlaybackAction::SendChunk(c) => {
                chunk_lens.push(c.len());
                got.extend(c);
            }
            PlaybackAction::Finish => break,
            other => panic!("unexpected action {other:?}"),
        }
    }
    assert_eq!(chunk_lens, vec![1024, 1024, 452]);
    assert_eq!(got, payload);
    assert_eq!(s.state, SessionState::Done(None));
}

#[test]
fn playback_chunk_count_is_rounded_up() {
    for (len, expect) in [
        (0usize, 0usize),
        (1, 1),
        (BLOCK_SIZE - 1, 1),
        (BLOCK_SIZE, 1),
        (BLOCK_SIZE + 1, 2),
    ] {
        let payload = vec![0xEE; len];
        let mut s =
            PlaybackSession::start(Ok(Some(message_with_payload(payload)))).unwrap();
        let mut chunks = 0usize;
        loop {
            match s.handle_event(Event::Tick) {
                PlaybackAction::SendChunk(_) => chunks += 1,
                PlaybackAction::Finish => break,
                other => panic!("unexpected action {other:?}"),
            }
        }
        assert_eq!(chunks, expect, "payload of {len} bytes");
    }
}

#[test]
fn playback_rejects_payload_frames() {
    for frame in [
        Frame::Binary(vec![1]),
        Frame::Text(String::from("hi")),
        Frame::Continuation,
    ] {
        let mut s =
            PlaybackSession::start(Ok(Some(message_with_payload(vec![1, 2, 3])))).unwrap();
        let a = s.handle_event(Event::Frame(frame));
        assert_eq!(a, PlaybackAction::Finish);
        assert_eq!(
            s.state,
            SessionState::Done(Some(CloseReason::UnsupportedPayload))
        );
        // and nothing is sent afterwards
        let a2 = s.handle_event(Event::Tick);
        assert_eq!(a2, PlaybackAction::Stay);
    }
}

#[test]
fn playback_answers_ping_and_ignores_pong() {
    let mut s = PlaybackSession::start(Ok(Some(message_with_payload(vec![1])))).unwrap();
    let a = s.handle_event(Event::Frame(Frame::Ping(vec![4])));
    assert_eq!(a, PlaybackAction::SendPong(vec![4]));
    let a2 = s.handle_event(Event::Frame(Frame::Pong(vec![4])));
    assert_eq!(a2, PlaybackAction::Stay);
    let a3 = s.handle_event(Event::Frame(Frame::NoOp));
    assert_eq!(a3, PlaybackAction::Stay);
    assert_eq!(s.state, SessionState::Active);
}

#[test]
fn playback_peer_close_ends_cleanly() {
    let mut s = PlaybackSession::start(Ok(Some(message_with_payload(vec![1, 2])))).unwrap();
    let a = s.handle_event(Event::Frame(Frame::Close(Some(String::from("bye")))));
    assert_eq!(a, PlaybackAction::Finish);
    assert_eq!(s.state, SessionState::Done(None));
}

#[test]
fn playback_stream_error_ends_cleanly() {
    let mut s = PlaybackSession::start(Ok(Some(message_with_payload(vec![1, 2])))).unwrap();
    let a = s.handle_event(Event::StreamError);
    assert_eq!(a, PlaybackAction::Finish);
    assert_eq!(s.state, SessionState::Done(None));
}

#[test]
fn close_reason_codes_and_descriptions() {
    assert_eq!(CloseReason::UnsupportedText.code(), CloseCode::Unsupported);
    assert_eq!(
        CloseReason::UnsupportedText.description(),
        Some(String::from("Only binary data supported"))
    );
    assert_eq!(
        CloseReason::UnsupportedContinuation.code(),
        CloseCode::Unsupported
    );
    assert_eq!(
        CloseReason::UnsupportedContinuation.description(),
        Some(String::from("No support for continuation frame."))
    );
    assert_eq!(CloseReason::UnsupportedPayload.code(), CloseCode::Unsupported);
    assert_eq!(CloseReason::UnsupportedPayload.description(), None);
    assert_eq!(CloseReason::Timeout.code(), CloseCode::Protocol);
    assert_eq!(
        CloseReason::Timeout.description(),
        Some(String::from("server: timed out"))
    );
}
