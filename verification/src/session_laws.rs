//! The protocol laws of the session state machines, stated over whole event
//! sequences and proved from the spec transitions in [`crate::manage_user_message`].
//!
//! A *run* folds the one-event transition over a sequence of inputs, exactly
//! as a session loop does; the laws say what any such run must deliver: the
//! ingest payload is the concatenation of the binary frames, a quiet peer
//! times out with its partial payload intact, an ended session absorbs every
//! later event, and concurrent sessions cannot disturb each other.

use vstd::prelude::*;

use crate::manage_user_message::{
    spec_ingest_step, spec_playback_step, spec_chunk_end, CloseReason, EventView, FrameView,
    IngestView, IngestActionView, PlaybackView, PlaybackActionView, SessionState, BLOCK_SIZE,
    CLIENT_TIMEOUT,
};

verus! {

/// One multiplexed event together with the time at which the session loop
/// observes it.
pub struct TimedEvent {
    pub ev: EventView,
    pub at: int,
}

/// Fold of [`spec_ingest_step`] over an input sequence: the state an ingest
/// session reaches after handling these events in order.
pub open spec fn spec_ingest_run(s: IngestView, inputs: Seq<TimedEvent>) -> IngestView
    decreases inputs.len(),
{
    if inputs.len() == 0 {
        s
    } else {
        spec_ingest_run(
            spec_ingest_step(s, inputs.first().ev, inputs.first().at).0,
            inputs.drop_first(),
        )
    }
}

/// Fold of [`spec_playback_step`] over an event sequence, also collecting the
/// action each event provoked.
pub open spec fn spec_playback_run(s: PlaybackView, evs: Seq<EventView>) -> (PlaybackView, Seq<
    PlaybackActionView,
>)
    decreases evs.len(),
{
    if evs.len() == 0 {
        (s, Seq::empty())
    } else {
        let first = spec_playback_step(s, evs.first());
        let rest = spec_playback_run(first.0, evs.drop_first());
        (rest.0, seq![first.1] + rest.1)
    }
}

/// Law: an ingest session that has ended ignores every further event.
pub proof fn lemma_ingest_done_absorbs(s: IngestView, inputs: Seq<TimedEvent>)
    requires
        s.state matches SessionState::Done(_),
    ensures
        spec_ingest_run(s, inputs) == s,
    decreases inputs.len(),
{
    if inputs.len() > 0 {
        lemma_ingest_done_absorbs(s, inputs.drop_first());
    }
}

/// Law: a playback session that has ended ignores every further event and
/// sends nothing more.
pub proof fn lemma_playback_done_absorbs(s: PlaybackView, evs: Seq<EventView>)
    requires
        s.state matches SessionState::Done(_),
    ensures
        spec_playback_run(s, evs).0 == s,
        forall|i: int|
            0 <= i < spec_playback_run(s, evs).1.len() ==> spec_playback_run(s, evs).1[i]
                == PlaybackActionView::Stay,
    decreases evs.len(),
{
    if evs.len() > 0 {
        lemma_playback_done_absorbs(s, evs.drop_first());
    }
}

/// Law: a session that hears nothing liveness-refreshing for longer than
/// [`CLIENT_TIMEOUT`] after its last refresh ends on the next tick with the
/// timeout reason, committing exactly the payload accumulated so far.
pub proof fn lemma_ingest_timeout(s: IngestView, now: int)
    requires
        s.state == SessionState::Active,
        now - s.last_heartbeat > CLIENT_TIMEOUT as int,
    ensures
        spec_ingest_step(s, EventView::Tick, now).0.state == SessionState::Done(
            Some(CloseReason::Timeout),
        ),
        spec_ingest_step(s, EventView::Tick, now).0.payload == s.payload,
        spec_ingest_step(s, EventView::Tick, now).1 == IngestActionView::Commit,
{
}

/// Law: a text frame on the submit channel ends the session at once with the
/// unsupported-frame reason; nothing later is processed, and the committed
/// payload is whatever had accumulated before the text frame.
pub proof fn lemma_text_closes_ingest(
    s: IngestView,
    t: Seq<char>,
    now: int,
    later: Seq<TimedEvent>,
)
    requires
        s.state == SessionState::Active,
    ensures
        ({
            let r = spec_ingest_step(s, EventView::Frame(FrameView::Text(t)), now);
            &&& r.0.state == SessionState::Done(Some(CloseReason::UnsupportedText))
            &&& r.0.payload == s.payload
            &&& r.1 == IngestActionView::Commit
            &&& spec_ingest_run(r.0, later) == r.0
        }),
{
    let r = spec_ingest_step(s, EventView::Frame(FrameView::Text(t)), now);
    lemma_ingest_done_absorbs(r.0, later);
}

/// Law: a text frame on the receive channel ends the session at once with the
/// unsupported-frame reason; nothing later is processed or sent.
pub proof fn lemma_text_closes_playback(s: PlaybackView, t: Seq<char>, later: Seq<EventView>)
    requires
        s.state == SessionState::Active,
    ensures
        ({
            let r = spec_playback_step(s, EventView::Frame(FrameView::Text(t)));
            &&& r.0.state == SessionState::Done(Some(CloseReason::UnsupportedPayload))
            &&& r.1 == PlaybackActionView::Finish
            &&& spec_playback_run(r.0, later).0 == r.0
            &&& forall|i: int|
                0 <= i < spec_playback_run(r.0, later).1.len() ==> spec_playback_run(
                    r.0,
                    later,
                ).1[i] == PlaybackActionView::Stay
        }),
{
    let r = spec_playback_step(s, EventView::Frame(FrameView::Text(t)));
    lemma_playback_done_absorbs(r.0, later);
}

/// Law: however the chunk boundaries fall, an ingest session that receives a
/// sequence of binary frames and then a clean close ends with a reasonless
/// close and holds exactly the concatenation of those frames, in send order,
/// appended to whatever it already had.
pub proof fn lemma_ingest_stores_concatenation(
    s: IngestView,
    inputs: Seq<TimedEvent>,
    frames: Seq<Seq<u8>>,
)
    requires
        s.state == SessionState::Active,
        inputs.len() == frames.len() + 1,
        forall|i: int|
            0 <= i < frames.len() ==> (#[trigger] inputs[i].ev) == EventView::Frame(
                FrameView::Binary(frames[i]),
            ),
        inputs.last().ev matches EventView::Frame(FrameView::Close(_)),
    ensures
        spec_ingest_run(s, inputs).state == SessionState::Done(None),
        spec_ingest_run(s, inputs).payload == s.payload + frames.flatten(),
    decreases frames.len(),
{
    let e = inputs.first();
    let s1 = spec_ingest_step(s, e.ev, e.at).0;
    if frames.len() == 0 {
        assert(inputs.last() == e);
        assert(s1.state == SessionState::Done(None));
        lemma_ingest_done_absorbs(s1, inputs.drop_first());
        assert(s.payload + frames.flatten() =~= s.payload);
    } else {
        assert(inputs[0].ev == EventView::Frame(FrameView::Binary(frames[0])));
        assert(s1.payload == s.payload + frames[0]);
        let rest = inputs.drop_first();
        let rest_frames = frames.drop_first();
        assert forall|i: int| 0 <= i < rest_frames.len() implies (#[trigger] rest[i].ev)
            == EventView::Frame(FrameView::Binary(rest_frames[i])) by {
            assert(rest[i] == inputs[i + 1]);
            assert(rest_frames[i] == frames[i + 1]);
        }
        assert(rest.last() == inputs.last());
        lemma_ingest_stores_concatenation(s1, rest, rest_frames);
        assert(frames.flatten() == frames.first() + rest_frames.flatten());
        assert((s.payload + frames[0]) + rest_frames.flatten() =~= s.payload + frames.flatten());
    }
}

/// The chunks a playback session still has to send when its cursor stands at
/// `pos`: full [`BLOCK_SIZE`]-byte blocks, with a shorter final block if the
/// payload length is not a multiple of the block size.
pub open spec fn spec_chunks(payload: Seq<u8>, pos: int) -> Seq<Seq<u8>>
    decreases payload.len() - pos,
    when 0 <= pos <= payload.len()
{
    if pos >= payload.len() {
        Seq::empty()
    } else {
        let end = spec_chunk_end(payload, pos);
        seq![payload.subrange(pos, end)] + spec_chunks(payload, end)
    }
}

/// Integer division rounding up.
pub open spec fn div_round_up(n: int, d: int) -> int {
    (n + d - 1) / d
}

/// Law: concatenating the remaining chunks reconstructs the remaining payload
/// exactly.
pub proof fn lemma_chunks_concat(payload: Seq<u8>, pos: int)
    requires
        0 <= pos <= payload.len(),
    ensures
        spec_chunks(payload, pos).flatten() == payload.subrange(pos, payload.len() as int),
    decreases payload.len() - pos,
{
    if pos >= payload.len() {
        assert(spec_chunks(payload, pos).flatten() =~= payload.subrange(
            pos,
            payload.len() as int,
        ));
    } else {
        let end = spec_chunk_end(payload, pos);
        let chunk = payload.subrange(pos, end);
        let chunks = spec_chunks(payload, pos);
        lemma_chunks_concat(payload, end);
        assert(chunks.first() == chunk);
        assert(chunks.drop_first() =~= spec_chunks(payload, end));
        assert(chunks.flatten() == chunk + spec_chunks(payload, end).flatten());
        assert(chunk + payload.subrange(end, payload.len() as int) =~= payload.subrange(
            pos,
            payload.len() as int,
        ));
    }
}

/// Law: the number of remaining chunks is the remaining byte count divided by
/// [`BLOCK_SIZE`], rounded up.
pub proof fn lemma_chunks_count(payload: Seq<u8>, pos: int)
    requires
        0 <= pos <= payload.len(),
    ensures
        spec_chunks(payload, pos).len() == div_round_up(payload.len() - pos, BLOCK_SIZE as int),
    decreases payload.len() - pos,
{
    let b = BLOCK_SIZE as int;
    let n = payload.len() - pos;
    if pos >= payload.len() {
        assert((n + b - 1) / b == 0);
    } else {
        let end = spec_chunk_end(payload, pos);
        lemma_chunks_count(payload, end);
        if pos + b <= payload.len() {
            assert((n + b - 1) / b == (n - b + b - 1) / b + 1) by (nonlinear_arith)
                requires
                    n >= b,
                    b == 1024,
            ;
        } else {
            assert((n + b - 1) / b == 1) by (nonlinear_arith)
                requires
                    0 < n < b,
                    b == 1024,
            ;
        }
    }
}

/// Law: a playback session with chunks still to send answers each pacing tick
/// with the next chunk, in order, and the tick after the last chunk ends the
/// session with a clean, reasonless close. The payload it holds never changes.
pub proof fn lemma_playback_emits_chunks(s: PlaybackView)
    requires
        s.wf(),
        s.state == SessionState::Active,
    ensures
        ({
            let chunks = spec_chunks(s.payload, s.pos);
            let evs = Seq::new(chunks.len() + 1, |i: int| EventView::Tick);
            let r = spec_playback_run(s, evs);
            &&& r.0.state == SessionState::Done(None)
            &&& r.0.payload == s.payload
            &&& r.1.len() == chunks.len() + 1
            &&& (forall|i: int|
                0 <= i < chunks.len() ==> r.1[i] == PlaybackActionView::SendChunk(chunks[i]))
            &&& r.1.last() == PlaybackActionView::Finish
        }),
    decreases s.payload.len() - s.pos,
{
    let chunks = spec_chunks(s.payload, s.pos);
    let evs = Seq::new(chunks.len() + 1, |i: int| EventView::Tick);
    let step = spec_playback_step(s, EventView::Tick);
    let r = spec_playback_run(s, evs);
    assert(evs.first() == EventView::Tick);
    if s.pos >= s.payload.len() {
        assert(chunks.len() == 0);
        assert(step.0.state == SessionState::Done(None));
        assert(evs.drop_first() =~= Seq::<EventView>::empty());
        let r1 = spec_playback_run(step.0, evs.drop_first());
        assert(r1.0 == step.0 && r1.1 =~= Seq::<PlaybackActionView>::empty());
        assert(r.1 =~= seq![PlaybackActionView::Finish]);
    } else {
        let end = spec_chunk_end(s.payload, s.pos);
        let s1 = step.0;
        assert(s1.pos == end && s1.payload == s.payload && s1.state == SessionState::Active);
        lemma_playback_emits_chunks(s1);
        let chunks1 = spec_chunks(s.payload, end);
        assert(chunks == seq![s.payload.subrange(s.pos, end)] + chunks1);
        assert(chunks.len() == 1 + chunks1.len());
        assert(chunks.drop_first() =~= chunks1);
        let evs1 = Seq::new(chunks1.len() + 1, |i: int| EventView::Tick);
        assert(evs.drop_first() =~= evs1);
        let r1 = spec_playback_run(s1, evs1);
        assert(r.0 == r1.0);
        assert(r.1 == seq![step.1] + r1.1);
        assert(step.1 == PlaybackActionView::SendChunk(chunks[0]));
        assert forall|i: int| 0 <= i < chunks.len() implies r.1[i]
            == PlaybackActionView::SendChunk(chunks[i]) by {
            if i > 0 {
                assert(r1.1[i - 1] == PlaybackActionView::SendChunk(chunks1[i - 1]));
                assert(chunks1[i - 1] == chunks[i]);
            }
        }
        assert(r.1.last() == r1.1.last());
    }
}

/// Law: a playback session for a payload of `N` bytes, run from its first
/// byte, emits exactly `N / BLOCK_SIZE` (rounded up) binary chunks whose
/// concatenation is the payload itself, and then closes cleanly.
pub proof fn lemma_playback_reconstructs_payload(s: PlaybackView)
    requires
        s.wf(),
        s.state == SessionState::Active,
        s.pos == 0,
    ensures
        ({
            let chunks = spec_chunks(s.payload, 0);
            let evs = Seq::new(chunks.len() + 1, |i: int| EventView::Tick);
            let r = spec_playback_run(s, evs);
            &&& chunks.len() == div_round_up(s.payload.len() as int, BLOCK_SIZE as int)
            &&& chunks.flatten() == s.payload
            &&& r.0.state == SessionState::Done(None)
            &&& (forall|i: int|
                0 <= i < chunks.len() ==> r.1[i] == PlaybackActionView::SendChunk(chunks[i]))
            &&& r.1.last() == PlaybackActionView::Finish
        }),
{
    lemma_chunks_count(s.payload, 0);
    lemma_chunks_concat(s.payload, 0);
    assert(s.payload.subrange(0, s.payload.len() as int) =~= s.payload);
    lemma_playback_emits_chunks(s);
}

/// The actions an ingest session asks its loop for, over a whole run: the
/// action-collecting companion of [`spec_ingest_run`].
pub open spec fn spec_ingest_run_actions(s: IngestView, inputs: Seq<TimedEvent>) -> Seq<
    IngestActionView,
>
    decreases inputs.len(),
{
    if inputs.len() == 0 {
        Seq::empty()
    } else {
        let r = spec_ingest_step(s, inputs.first().ev, inputs.first().at);
        seq![r.1] + spec_ingest_run_actions(r.0, inputs.drop_first())
    }
}

/// How many of these actions ask for the durable write.
pub open spec fn spec_commit_count(acts: Seq<IngestActionView>) -> int
    decreases acts.len(),
{
    if acts.len() == 0 {
        0
    } else {
        (if acts.first() == IngestActionView::Commit {
            1int
        } else {
            0int
        }) + spec_commit_count(acts.drop_first())
    }
}

/// Law: an ended ingest session never asks for another write.
pub proof fn lemma_ingest_done_commits_nothing(s: IngestView, inputs: Seq<TimedEvent>)
    requires
        s.state matches SessionState::Done(_),
    ensures
        spec_commit_count(spec_ingest_run_actions(s, inputs)) == 0,
    decreases inputs.len(),
{
    if inputs.len() > 0 {
        let r = spec_ingest_step(s, inputs.first().ev, inputs.first().at);
        assert(r.0 == s && r.1 == IngestActionView::Stay);
        lemma_ingest_done_commits_nothing(s, inputs.drop_first());
        let acts = spec_ingest_run_actions(s, inputs);
        assert(acts.first() == IngestActionView::Stay);
        assert(acts.drop_first() =~= spec_ingest_run_actions(s, inputs.drop_first()));
    }
}

/// Law: exactly one durable write per ingest session. A run that reaches the
/// ended state has asked for the write exactly once, whatever ended it; a run
/// still active has not asked at all.
pub proof fn lemma_ingest_commits_once(s: IngestView, inputs: Seq<TimedEvent>)
    requires
        s.state == SessionState::Active,
    ensures
        spec_ingest_run(s, inputs).state matches SessionState::Done(_) ==> spec_commit_count(
            spec_ingest_run_actions(s, inputs),
        ) == 1,
        spec_ingest_run(s, inputs).state == SessionState::Active ==> spec_commit_count(
            spec_ingest_run_actions(s, inputs),
        ) == 0,
    decreases inputs.len(),
{
    if inputs.len() > 0 {
        let r = spec_ingest_step(s, inputs.first().ev, inputs.first().at);
        let acts = spec_ingest_run_actions(s, inputs);
        assert(acts.first() == r.1);
        assert(acts.drop_first() =~= spec_ingest_run_actions(r.0, inputs.drop_first()));
        match r.0.state {
            SessionState::Active => {
                assert(r.1 != IngestActionView::Commit);
                lemma_ingest_commits_once(r.0, inputs.drop_first());
            },
            SessionState::Done(_) => {
                assert(r.1 == IngestActionView::Commit);
                lemma_ingest_done_commits_nothing(r.0, inputs.drop_first());
                lemma_ingest_done_absorbs(r.0, inputs.drop_first());
            },
        }
    }
}

/// One entry of an interleaved schedule over two concurrent ingest sessions:
/// which of the two receives the event.
pub struct RoutedEvent {
    pub to_first: bool,
    pub input: TimedEvent,
}

/// The subsequence of a schedule addressed to one of the two sessions, in
/// schedule order.
pub open spec fn spec_events_for(sched: Seq<RoutedEvent>, to_first: bool) -> Seq<TimedEvent>
    decreases sched.len(),
{
    if sched.len() == 0 {
        Seq::empty()
    } else if sched.first().to_first == to_first {
        seq![sched.first().input] + spec_events_for(sched.drop_first(), to_first)
    } else {
        spec_events_for(sched.drop_first(), to_first)
    }
}

/// Two ingest sessions stepped under one interleaved schedule, each handling
/// only the events addressed to it, in schedule order.
pub open spec fn spec_ingest_pair_run(a: IngestView, b: IngestView, sched: Seq<RoutedEvent>) -> (
    IngestView,
    IngestView,
)
    decreases sched.len(),
{
    if sched.len() == 0 {
        (a, b)
    } else {
        let x = sched.first();
        if x.to_first {
            spec_ingest_pair_run(
                spec_ingest_step(a, x.input.ev, x.input.at).0,
                b,
                sched.drop_first(),
            )
        } else {
            spec_ingest_pair_run(
                a,
                spec_ingest_step(b, x.input.ev, x.input.at).0,
                sched.drop_first(),
            )
        }
    }
}

/// Law: concurrent ingest sessions are isolated. Under any interleaving, each
/// session ends in exactly the state it reaches running its own events alone —
/// so one session's final payload is unaffected by the other's frames or
/// timing.
pub proof fn lemma_ingest_sessions_isolated(a: IngestView, b: IngestView, sched: Seq<RoutedEvent>)
    ensures
        spec_ingest_pair_run(a, b, sched).0 == spec_ingest_run(a, spec_events_for(sched, true)),
        spec_ingest_pair_run(a, b, sched).1 == spec_ingest_run(b, spec_events_for(sched, false)),
    decreases sched.len(),
{
    if sched.len() > 0 {
        let x = sched.first();
        let rest = sched.drop_first();
        if x.to_first {
            let a1 = spec_ingest_step(a, x.input.ev, x.input.at).0;
            lemma_ingest_sessions_isolated(a1, b, rest);
            let evs_a = spec_events_for(sched, true);
            assert(evs_a == seq![x.input] + spec_events_for(rest, true));
            assert(evs_a.first() == x.input);
            assert(evs_a.drop_first() =~= spec_events_for(rest, true));
            assert(spec_events_for(sched, false) =~= spec_events_for(rest, false));
        } else {
            let b1 = spec_ingest_step(b, x.input.ev, x.input.at).0;
            lemma_ingest_sessions_isolated(a, b1, rest);
            let evs_b = spec_events_for(sched, false);
            assert(evs_b == seq![x.input] + spec_events_for(rest, false));
            assert(evs_b.first() == x.input);
            assert(evs_b.drop_first() =~= spec_events_for(rest, false));
            assert(spec_events_for(sched, true) =~= spec_events_for(rest, true));
        }
    }
}

} // verus!
