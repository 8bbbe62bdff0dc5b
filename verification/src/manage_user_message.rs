//! Duplex-channel sessions for submitting and receiving audio messages.
//!
//! Each live connection owns one session. A session consumes a single ordered
//! stream of [`Event`]s — peer frames merged with periodic timer ticks — and
//! reacts to one event at a time. The submit side is an [`IngestSession`]: it
//! accumulates binary payload, enforces a liveness timeout, and surrenders the
//! accumulated bytes for exactly one durable write when it ends. The receive
//! side is a [`PlaybackSession`]: it reads one stored record up front and
//! paces it out in [`BLOCK_SIZE`]-byte binary frames, one per tick.
//!
//! The transition functions are written twice: once as executable methods and
//! once as `spec` functions (`spec_ingest_step`, `spec_playback_step`). Each
//! method's contract says that it computes exactly the spec transition, so all
//! protocol laws can be stated and proved over the spec functions alone.

use vstd::prelude::*;
use vstd::string::StringExecFns;

use crate::handlers::AppError;
use crate::db_types::UserMessage;

verus! {

/// How often liveness probes are sent, in time units.
///
/// Half of [`CLIENT_TIMEOUT`], so a peer gets at least one extra probe before
/// it is declared dead.
pub const HEARTBEAT_INTERVAL: u64 = 5;

/// How long a submit peer may stay silent, in time units, before the session
/// closes with a protocol-timeout reason.
pub const CLIENT_TIMEOUT: u64 = 10;

/// Pacing period of the playback side, in milliseconds. One stored chunk is
/// sent per pacing tick.
pub const BLOCK_INTERVAL: u64 = 10;

/// Size of one playback chunk in bytes; the final chunk may be shorter.
pub const BLOCK_SIZE: usize = 1024;

/// One unit delivered by the duplex transport.
#[derive(Debug, PartialEq, Eq)]
pub enum Frame {
    /// Payload bytes.
    Binary(Vec<u8>),
    /// Text; the protocol is binary-only, so this is always rejected.
    Text(String),
    /// Liveness probe from the peer; answered with a matching `Pong`.
    Ping(Vec<u8>),
    /// Liveness probe acknowledgement from the peer.
    Pong(Vec<u8>),
    /// Peer-initiated close, with an optional reason the sessions ignore.
    Close(Option<String>),
    /// Fragmented-message frame; unsupported, always rejected.
    Continuation,
    /// No-op frame; ignored.
    NoOp,
}

/// Mathematical model of a [`Frame`].
pub enum FrameView {
    Binary(Seq<u8>),
    Text(Seq<char>),
    Ping(Seq<u8>),
    Pong(Seq<u8>),
    Close(Option<Seq<char>>),
    Continuation,
    NoOp,
}

impl View for Frame {
    type V = FrameView;

    open spec fn view(&self) -> FrameView {
        match self {
            Frame::Binary(b) => FrameView::Binary(b@),
            Frame::Text(t) => FrameView::Text(t@),
            Frame::Ping(b) => FrameView::Ping(b@),
            Frame::Pong(b) => FrameView::Pong(b@),
            Frame::Close(r) => FrameView::Close(match r {
                Some(t) => Some(t@),
                None => None,
            }),
            Frame::Continuation => FrameView::Continuation,
            Frame::NoOp => FrameView::NoOp,
        }
    }
}

/// The multiplexer's unit of work: a timer tick merged with the peer's frame
/// stream. `StreamError` stands for a frame the transport failed to deliver.
#[derive(Debug, PartialEq, Eq)]
pub enum Event {
    /// The session's own timer fired (liveness probe or pacing, by channel).
    Tick,
    /// A frame arrived from the peer.
    Frame(Frame),
    /// The transport reported an error instead of a frame.
    StreamError,
}

/// Mathematical model of an [`Event`].
pub enum EventView {
    Tick,
    Frame(FrameView),
    StreamError,
}

impl View for Event {
    type V = EventView;

    open spec fn view(&self) -> EventView {
        match self {
            Event::Tick => EventView::Tick,
            Event::Frame(f) => EventView::Frame(f@),
            Event::StreamError => EventView::StreamError,
        }
    }
}

/// Close code in the transport's close handshake, modeled abstractly.
#[derive(Clone, Copy, Debug, PartialEq, Eq)]
pub enum CloseCode {
    /// The peer sent a frame kind this channel does not allow.
    Unsupported,
    /// The peer violated the liveness protocol (went quiet too long).
    Protocol,
    /// Looking up or loading the requested record failed.
    Error,
}

/// Why a session ended, when it did not end with a clean, reasonless close.
#[derive(Clone, Copy, Debug, PartialEq, Eq)]
pub enum CloseReason {
    /// A text frame arrived on the binary-only submit channel.
    UnsupportedText,
    /// A continuation frame arrived; fragmented messages are unsupported.
    UnsupportedContinuation,
    /// A payload-bearing frame arrived on the playback channel.
    UnsupportedPayload,
    /// No liveness-refreshing frame arrived within [`CLIENT_TIMEOUT`].
    Timeout,
    /// The playback record could not be loaded; carries the lookup error.
    LoadError(AppError),
}

impl CloseReason {
    /// The close code this reason maps to in the close handshake.
    pub open spec fn spec_code(self) -> CloseCode {
        match self {
            CloseReason::UnsupportedText => CloseCode::Unsupported,
            CloseReason::UnsupportedContinuation => CloseCode::Unsupported,
            CloseReason::UnsupportedPayload => CloseCode::Unsupported,
            CloseReason::Timeout => CloseCode::Protocol,
            CloseReason::LoadError(_) => CloseCode::Error,
        }
    }

    /// Close code sent to the peer.
    pub fn code(&self) -> (code: CloseCode)
        ensures
            code == self.spec_code(),
    {
        match self {
            CloseReason::UnsupportedText => CloseCode::Unsupported,
            CloseReason::UnsupportedContinuation => CloseCode::Unsupported,
            CloseReason::UnsupportedPayload => CloseCode::Unsupported,
            CloseReason::Timeout => CloseCode::Protocol,
            CloseReason::LoadError(_) => CloseCode::Error,
        }
    }

    /// The human-readable description attached to the close handshake.
    pub open spec fn spec_description(self) -> Option<Seq<char>> {
        match self {
            CloseReason::UnsupportedText => Some("Only binary data supported"@),
            CloseReason::UnsupportedContinuation => Some("No support for continuation frame."@),
            CloseReason::UnsupportedPayload => None,
            CloseReason::Timeout => Some("server: timed out"@),
            CloseReason::LoadError(e) => Some(e.spec_text()),
        }
    }

    /// Human-readable description sent to the peer, if this reason has one.
    pub fn description(&self) -> (d: Option<String>)
        ensures
            d matches Some(s) ==> Some(s@) == self.spec_description(),
            (d is Some) == (self.spec_description() is Some),
    {
        match self {
            CloseReason::UnsupportedText => Some(String::from_str("Only binary data supported")),
            CloseReason::UnsupportedContinuation => Some(
                String::from_str("No support for continuation frame."),
            ),
            CloseReason::UnsupportedPayload => None,
            CloseReason::Timeout => Some(String::from_str("server: timed out")),
            CloseReason::LoadError(e) => Some(e.to_text()),
        }
    }
}

/// Lifecycle of a session: handling events, or ended with a terminal reason
/// (`None` is a clean, reasonless close).
#[derive(Clone, Copy, Debug, PartialEq, Eq)]
pub enum SessionState {
    Active,
    Done(Option<CloseReason>),
}

/// Mathematical model of an [`IngestSession`].
pub struct IngestView {
    pub payload: Seq<u8>,
    pub last_heartbeat: int,
    pub state: SessionState,
}

/// What the submit-channel loop must do after one event was handled.
#[derive(Debug, PartialEq, Eq)]
pub enum IngestAction {
    /// Nothing to send; keep waiting for the next event.
    Stay,
    /// Send a liveness probe to the peer.
    SendPing,
    /// Acknowledge the peer's liveness probe with these bytes.
    SendPong(Vec<u8>),
    /// The session ended: perform the one durable write of the accumulated
    /// payload, then attempt the close handshake with the terminal reason.
    Commit,
}

/// Mathematical model of an [`IngestAction`].
pub enum IngestActionView {
    Stay,
    SendPing,
    SendPong(Seq<u8>),
    Commit,
}

impl View for IngestAction {
    type V = IngestActionView;

    open spec fn view(&self) -> IngestActionView {
        match self {
            IngestAction::Stay => IngestActionView::Stay,
            IngestAction::SendPing => IngestActionView::SendPing,
            IngestAction::SendPong(b) => IngestActionView::SendPong(b@),
            IngestAction::Commit => IngestActionView::Commit,
        }
    }
}

/// The transition relation of the submit channel, one event at a time.
///
/// An ended session absorbs every further event without changing or acting;
/// the running loop never feeds it one, but the totality makes the laws easy
/// to state.
pub open spec fn spec_ingest_step(s: IngestView, ev: EventView, now: int) -> (IngestView,
    IngestActionView) {
    match s.state {
        SessionState::Done(_) => (s, IngestActionView::Stay),
        SessionState::Active => match ev {
            EventView::Tick => if now - s.last_heartbeat > CLIENT_TIMEOUT as int {
                (
                    IngestView {
                        state: SessionState::Done(Some(CloseReason::Timeout)),
                        ..s
                    },
                    IngestActionView::Commit,
                )
            } else {
                (s, IngestActionView::SendPing)
            },
            EventView::Frame(f) => match f {
                FrameView::Binary(b) => (
                    IngestView { payload: s.payload + b, last_heartbeat: now, ..s },
                    IngestActionView::Stay,
                ),
                FrameView::Text(_) => (
                    IngestView {
                        state: SessionState::Done(Some(CloseReason::UnsupportedText)),
                        ..s
                    },
                    IngestActionView::Commit,
                ),
                FrameView::Ping(b) => (
                    IngestView { last_heartbeat: now, ..s },
                    IngestActionView::SendPong(b),
                ),
                FrameView::Pong(_) => (
                    IngestView { last_heartbeat: now, ..s },
                    IngestActionView::Stay,
                ),
                FrameView::Close(_) => (
                    IngestView { state: SessionState::Done(None), ..s },
                    IngestActionView::Commit,
                ),
                FrameView::Continuation => (
                    IngestView {
                        state: SessionState::Done(Some(CloseReason::UnsupportedContinuation)),
                        ..s
                    },
                    IngestActionView::Commit,
                ),
                FrameView::NoOp => (s, IngestActionView::Stay),
            },
            EventView::StreamError => (
                IngestView { state: SessionState::Done(None), ..s },
                IngestActionView::Commit,
            ),
        },
    }
}

/// Session of the submit channel: accumulates one binary payload and commits
/// it durably exactly once, when the session ends.
pub struct IngestSession {
    /// Payload accumulated so far, in arrival order.
    pub audio_data: Vec<u8>,
    /// When the last liveness-refreshing frame arrived (or the session began).
    pub last_heartbeat: u64,
    /// Whether the session is still handling events.
    pub state: SessionState,
}

impl View for IngestSession {
    type V = IngestView;

    open spec fn view(&self) -> IngestView {
        IngestView {
            payload: self.audio_data@,
            last_heartbeat: self.last_heartbeat as int,
            state: self.state,
        }
    }
}

impl IngestSession {
    /// A fresh session, created at connection upgrade time `now`.
    pub fn new(now: u64) -> (s: Self)
        ensures
            s@ == (IngestView {
                payload: Seq::<u8>::empty(),
                last_heartbeat: now as int,
                state: SessionState::Active,
            }),
    {
        let s = IngestSession { audio_data: Vec::new(), last_heartbeat: now, state: SessionState::Active };
        proof {
            assert(s@.payload =~= Seq::<u8>::empty());
        }
        s
    }

    /// Handle one multiplexed event, observed at time `now`.
    ///
    /// Computes exactly the transition [`spec_ingest_step`]: payload bytes are
    /// appended in arrival order, liveness-refreshing frames reset the
    /// heartbeat clock, a quiet peer times out, and every path into the ended
    /// state asks the caller for the single durable write via
    /// [`IngestAction::Commit`].
    pub fn handle_event(&mut self, ev: Event, now: u64) -> (act: IngestAction)
        requires
            old(self).last_heartbeat <= now,
        ensures
            final(self)@ == spec_ingest_step(old(self)@, ev@, now as int).0,
            act@ == spec_ingest_step(old(self)@, ev@, now as int).1,
            final(self).last_heartbeat <= now,
    {
        match self.state {
            SessionState::Done(_) => IngestAction::Stay,
            SessionState::Active => match ev {
                Event::Tick => {
                    if now - self.last_heartbeat > CLIENT_TIMEOUT {
                        self.state = SessionState::Done(Some(CloseReason::Timeout));
                        IngestAction::Commit
                    } else {
                        IngestAction::SendPing
                    }
                },
                Event::Frame(f) => match f {
                    Frame::Binary(mut b) => {
                        self.audio_data.append(&mut b);
                        self.last_heartbeat = now;
                        IngestAction::Stay
                    },
                    Frame::Text(_) => {
                        self.state = SessionState::Done(Some(CloseReason::UnsupportedText));
                        IngestAction::Commit
                    },
                    Frame::Ping(b) => {
                        self.last_heartbeat = now;
                        IngestAction::SendPong(b)
                    },
                    Frame::Pong(_) => {
                        self.last_heartbeat = now;
                        IngestAction::Stay
                    },
                    Frame::Close(_) => {
                        self.state = SessionState::Done(None);
                        IngestAction::Commit
                    },
                    Frame::Continuation => {
                        self.state = SessionState::Done(Some(CloseReason::UnsupportedContinuation));
                        IngestAction::Commit
                    },
                    Frame::NoOp => IngestAction::Stay,
                },
                Event::StreamError => {
                    self.state = SessionState::Done(None);
                    IngestAction::Commit
                },
            },
        }
    }
}

/// Mathematical model of a [`PlaybackSession`].
pub struct PlaybackView {
    pub payload: Seq<u8>,
    pub pos: int,
    pub state: SessionState,
}

impl PlaybackView {
    /// The cursor never runs past the payload.
    pub open spec fn wf(self) -> bool {
        0 <= self.pos <= self.payload.len()
    }
}

/// What the receive-channel loop must do after one event was handled.
#[derive(Debug, PartialEq, Eq)]
pub enum PlaybackAction {
    /// Nothing to send; keep waiting for the next event.
    Stay,
    /// Acknowledge the peer's liveness probe with these bytes.
    SendPong(Vec<u8>),
    /// Send the next payload chunk as one binary frame.
    SendChunk(Vec<u8>),
    /// The session ended: attempt the close handshake with the terminal
    /// reason. Playback writes nothing durable.
    Finish,
}

/// Mathematical model of a [`PlaybackAction`].
pub enum PlaybackActionView {
    Stay,
    SendPong(Seq<u8>),
    SendChunk(Seq<u8>),
    Finish,
}

impl View for PlaybackAction {
    type V = PlaybackActionView;

    open spec fn view(&self) -> PlaybackActionView {
        match self {
            PlaybackAction::Stay => PlaybackActionView::Stay,
            PlaybackAction::SendPong(b) => PlaybackActionView::SendPong(b@),
            PlaybackAction::SendChunk(b) => PlaybackActionView::SendChunk(b@),
            PlaybackAction::Finish => PlaybackActionView::Finish,
        }
    }
}

/// End of the chunk that starts at `pos`: one full block, or whatever is left.
pub open spec fn spec_chunk_end(payload: Seq<u8>, pos: int) -> int {
    if pos + BLOCK_SIZE as int <= payload.len() {
        pos + BLOCK_SIZE as int
    } else {
        payload.len() as int
    }
}

/// The transition relation of the receive channel, one event at a time.
///
/// Playback has no liveness timeout of its own: it is receiver-paced and ends
/// on its own once the payload is exhausted. An ended session absorbs every
/// further event.
pub open spec fn spec_playback_step(s: PlaybackView, ev: EventView) -> (PlaybackView,
    PlaybackActionView) {
    match s.state {
        SessionState::Done(_) => (s, PlaybackActionView::Stay),
        SessionState::Active => match ev {
            EventView::Tick => if s.pos < s.payload.len() {
                let end = spec_chunk_end(s.payload, s.pos);
                (
                    PlaybackView { pos: end, ..s },
                    PlaybackActionView::SendChunk(s.payload.subrange(s.pos, end)),
                )
            } else {
                (
                    PlaybackView { state: SessionState::Done(None), ..s },
                    PlaybackActionView::Finish,
                )
            },
            EventView::Frame(f) => match f {
                FrameView::Binary(_) | FrameView::Text(_) | FrameView::Continuation => (
                    PlaybackView {
                        state: SessionState::Done(Some(CloseReason::UnsupportedPayload)),
                        ..s
                    },
                    PlaybackActionView::Finish,
                ),
                FrameView::Ping(b) => (s, PlaybackActionView::SendPong(b)),
                FrameView::Pong(_) | FrameView::NoOp => (s, PlaybackActionView::Stay),
                FrameView::Close(_) => (
                    PlaybackView { state: SessionState::Done(None), ..s },
                    PlaybackActionView::Finish,
                ),
            },
            EventView::StreamError => (
                PlaybackView { state: SessionState::Done(None), ..s },
                PlaybackActionView::Finish,
            ),
        },
    }
}

/// Session of the receive channel: streams one stored payload out in
/// [`BLOCK_SIZE`]-byte chunks, one per pacing tick.
pub struct PlaybackSession {
    /// The full payload of the record being streamed.
    pub audio_data: Vec<u8>,
    /// How many bytes have been sent so far.
    pub pos: usize,
    /// Whether the session is still handling events.
    pub state: SessionState,
}

impl View for PlaybackSession {
    type V = PlaybackView;

    open spec fn view(&self) -> PlaybackView {
        PlaybackView { payload: self.audio_data@, pos: self.pos as int, state: self.state }
    }
}

impl PlaybackSession {
    /// Decide the outcome of the loading phase from the store's answer.
    ///
    /// A found record starts an active session positioned at its first byte;
    /// a missing record or a failed lookup never yields a session — the
    /// channel closes with an error reason before anything is sent.
    pub fn start(fetch: Result<Option<UserMessage>, AppError>) -> (r: Result<
        PlaybackSession,
        CloseReason,
    >)
        ensures
            fetch matches Ok(Some(m)) ==> (r matches Ok(s) && s@ == (PlaybackView {
                payload: m.audio_data@,
                pos: 0,
                state: SessionState::Active,
            })),
            fetch matches Ok(None) ==> r matches Err(c) && c == CloseReason::LoadError(
                AppError::NotFound,
            ),
            fetch matches Err(e) ==> r matches Err(c) && c == CloseReason::LoadError(e),
            r matches Ok(s) ==> s@.wf(),
    {
        match fetch {
            Ok(Some(m)) => Ok(
                PlaybackSession { audio_data: m.audio_data, pos: 0, state: SessionState::Active },
            ),
            Ok(None) => Err(CloseReason::LoadError(AppError::NotFound)),
            Err(e) => Err(CloseReason::LoadError(e)),
        }
    }

    /// Handle one multiplexed event.
    ///
    /// Computes exactly the transition [`spec_playback_step`]: each pacing
    /// tick sends the next chunk until the payload is exhausted, payload
    /// frames from the peer end the session with an unsupported-frame reason,
    /// and pings are acknowledged.
    pub fn handle_event(&mut self, ev: Event) -> (act: PlaybackAction)
        requires
            old(self)@.wf(),
        ensures
            final(self)@ == spec_playback_step(old(self)@, ev@).0,
            act@ == spec_playback_step(old(self)@, ev@).1,
            final(self)@.wf(),
    {
        match self.state {
            SessionState::Done(_) => PlaybackAction::Stay,
            SessionState::Active => match ev {
                Event::Tick => {
                    if self.pos < self.audio_data.len() {
                        let end: usize = if self.audio_data.len() - self.pos >= BLOCK_SIZE {
                            self.pos + BLOCK_SIZE
                        } else {
                            self.audio_data.len()
                        };
                        let mut chunk: Vec<u8> = Vec::new();
                        let mut i: usize = self.pos;
                        while i < end
                            invariant
                                self.pos <= i <= end <= self.audio_data.len(),
                                chunk@ == self.audio_data@.subrange(self.pos as int, i as int),
                            decreases end - i,
                        {
                            chunk.push(self.audio_data[i]);
                            proof {
                                assert(chunk@ =~= self.audio_data@.subrange(
                                    self.pos as int,
                                    i + 1,
                                ));
                            }
                            i = i + 1;
                        }
                        self.pos = end;
                        PlaybackAction::SendChunk(chunk)
                    } else {
                        self.state = SessionState::Done(None);
                        PlaybackAction::Finish
                    }
                },
                Event::Frame(f) => match f {
                    Frame::Binary(_) | Frame::Text(_) | Frame::Continuation => {
                        self.state = SessionState::Done(Some(CloseReason::UnsupportedPayload));
                        PlaybackAction::Finish
                    },
                    Frame::Ping(b) => PlaybackAction::SendPong(b),
                    Frame::Pong(_) | Frame::NoOp => PlaybackAction::Stay,
                    Frame::Close(_) => {
                        self.state = SessionState::Done(None);
                        PlaybackAction::Finish
                    },
                },
                Event::StreamError => {
                    self.state = SessionState::Done(None);
                    PlaybackAction::Finish
                },
            },
        }
    }
}

} // verus!
