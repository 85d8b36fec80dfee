//! The byte-stream-to-event adapter for sessions: the decisions of the
//! per-session reader thread.
//!
//! The host's reader thread blocks on the session's read end and, for every
//! read, hands the outcome to [`reader_step`]: data becomes one output event
//! with the chunk decoded lossily, end-of-stream becomes the session's one
//! exit event and stops the reader, and a read error stops the reader
//! silently. Emission is fire-and-forget; ordering within one session is the
//! order of the reads.

use vstd::prelude::*;

use crate::text::decode_utf8_lossy;
use crate::text::lossy_utf8;

verus! {

/// One notification for the event sink, concerning one session.
#[derive(Debug, Clone, PartialEq, Eq)]
pub enum PtyEvent {
    /// One successful read's worth of terminal output, decoded to text.
    Output { session_id: u32, text: String },
    /// The session's stream reached end-of-file: the shell process exited.
    Exit { session_id: u32 },
}

/// The mathematical content of a [`PtyEvent`].
pub enum PtyEventView {
    Output { session_id: u32, text: Seq<char> },
    Exit { session_id: u32 },
}

impl View for PtyEvent {
    type V = PtyEventView;

    open spec fn view(&self) -> PtyEventView {
        match self {
            PtyEvent::Output { session_id, text } => PtyEventView::Output {
                session_id: *session_id,
                text: text@,
            },
            PtyEvent::Exit { session_id } => PtyEventView::Exit { session_id: *session_id },
        }
    }
}

impl PtyEvent {
    /// The sink channel this event is emitted on.
    pub fn event_name(&self) -> (name: &'static str)
        ensures
            self@ is Output ==> name@ == "pty-output"@,
            self@ is Exit ==> name@ == "pty-exit"@,
    {
        match self {
            PtyEvent::Output { .. } => "pty-output",
            PtyEvent::Exit { .. } => "pty-exit",
        }
    }
}

/// What one blocking read of a session's stream produced.
#[derive(Debug)]
pub enum ReadOutcome {
    /// The read returned these bytes (one or more).
    Data(Vec<u8>),
    /// The read returned zero bytes: end of stream, the child exited.
    Eof,
    /// The read failed at the operating-system level.
    ReadError,
}

/// The mathematical content of a [`ReadOutcome`].
pub enum ReadOutcomeView {
    Data(Seq<u8>),
    Eof,
    ReadError,
}

impl View for ReadOutcome {
    type V = ReadOutcomeView;

    open spec fn view(&self) -> ReadOutcomeView {
        match self {
            ReadOutcome::Data(bytes) => ReadOutcomeView::Data(bytes@),
            ReadOutcome::Eof => ReadOutcomeView::Eof,
            ReadOutcome::ReadError => ReadOutcomeView::ReadError,
        }
    }
}

/// The event sequence the reader emits for a session whose successive reads
/// produce `outcomes`: one output event per data chunk, in order, each
/// carrying the chunk's lossy decoding; one exit event on end-of-stream,
/// after which the reader has stopped; nothing more after a read error.
pub open spec fn reader_events(session_id: u32, outcomes: Seq<ReadOutcomeView>) -> Seq<
    PtyEventView,
>
    decreases outcomes.len(),
{
    if outcomes.len() == 0 {
        Seq::empty()
    } else {
        match outcomes[0] {
            ReadOutcomeView::Data(bytes) => seq![
                PtyEventView::Output { session_id, text: lossy_utf8(bytes) },
            ] + reader_events(session_id, outcomes.drop_first()),
            ReadOutcomeView::Eof => seq![PtyEventView::Exit { session_id }],
            ReadOutcomeView::ReadError => Seq::empty(),
        }
    }
}

/// The content of an optional event.
pub open spec fn view_of_event(event: Option<PtyEvent>) -> Option<PtyEventView> {
    match event {
        Some(e) => Some(e@),
        None => None,
    }
}

/// The reader's reaction `(event, done)` to one read outcome.
pub open spec fn step_matches(
    session_id: u32,
    outcome: ReadOutcomeView,
    event: Option<PtyEventView>,
    done: bool,
) -> bool {
    match outcome {
        ReadOutcomeView::Data(bytes) => event == Some(
            PtyEventView::Output { session_id, text: lossy_utf8(bytes) },
        ) && !done,
        ReadOutcomeView::Eof => event == Some(PtyEventView::Exit { session_id }) && done,
        ReadOutcomeView::ReadError => event is None && done,
    }
}

/// Decide the reader's reaction to one read outcome: the event to emit, if
/// any, and whether the reader's loop is over.
pub fn reader_step(session_id: u32, outcome: &ReadOutcome) -> (r: (Option<PtyEvent>, bool))
    ensures
        step_matches(session_id, outcome@, view_of_event(r.0), r.1),
{
    match outcome {
        ReadOutcome::Data(bytes) => {
            let text = decode_utf8_lossy(bytes.as_slice());
            (Some(PtyEvent::Output { session_id, text }), false)
        },
        ReadOutcome::Eof => (Some(PtyEvent::Exit { session_id }), true),
        ReadOutcome::ReadError => (None, true),
    }
}

/// Run the reader's decision loop over a session's complete sequence of read
/// outcomes, collecting the events it emits, in order.
pub fn drain_outcomes(session_id: u32, outcomes: &Vec<ReadOutcome>) -> (events: Vec<PtyEvent>)
    ensures
        events@.map_values(|e: PtyEvent| e@) == reader_events(
            session_id,
            outcomes@.map_values(|o: ReadOutcome| o@),
        ),
{
    let ghost full = outcomes@.map_values(|o: ReadOutcome| o@);
    let mut events: Vec<PtyEvent> = Vec::new();
    let mut done = false;
    let mut i: usize = 0;
    proof {
        assert(full.skip(0) =~= full);
        assert(events@.map_values(|e: PtyEvent| e@) + reader_events(session_id, full)
            =~= reader_events(session_id, full));
    }
    while !done && i < outcomes.len()
        invariant
            i <= outcomes@.len(),
            full == outcomes@.map_values(|o: ReadOutcome| o@),
            reader_events(session_id, full) == events@.map_values(|e: PtyEvent| e@) + (
            if done {
                Seq::<PtyEventView>::empty()
            } else {
                reader_events(session_id, full.skip(i as int))
            }),
        decreases outcomes@.len() - i,
    {
        let (event, step_done) = reader_step(session_id, &outcomes[i]);
        proof {
            assert(full.skip(i as int)[0] == outcomes[i as int]@);
            assert(full.skip(i as int).drop_first() =~= full.skip(i as int + 1));
        }
        let ghost events_before = events@;
        match event {
            Some(e) => events.push(e),
            None => {},
        }
        proof {
            if event is Some {
                assert(events@.map_values(|e: PtyEvent| e@) =~= events_before.map_values(
                    |e: PtyEvent| e@,
                ).push(event->Some_0@));
            }
        }
        done = step_done;
        i = i + 1;
    }
    proof {
        if !done {
            assert(full.skip(i as int) =~= Seq::<ReadOutcomeView>::empty());
        }
        assert(reader_events(session_id, full) =~= events@.map_values(|e: PtyEvent| e@));
    }
    events
}

/// The concatenation, in order, of the text carried by the output events.
pub open spec fn concat_output_texts(events: Seq<PtyEventView>) -> Seq<char>
    decreases events.len(),
{
    if events.len() == 0 {
        Seq::empty()
    } else {
        (match events[0] {
            PtyEventView::Output { text, .. } => text,
            _ => Seq::empty(),
        }) + concat_output_texts(events.drop_first())
    }
}

/// The concatenation, in order, of the lossy decodings of `chunks`.
pub open spec fn concat_lossy(chunks: Seq<Seq<u8>>) -> Seq<char>
    decreases chunks.len(),
{
    if chunks.len() == 0 {
        Seq::empty()
    } else {
        lossy_utf8(chunks[0]) + concat_lossy(chunks.drop_first())
    }
}

/// A session whose stream delivers `chunks` and then end-of-file is observed
/// as exactly one output event per chunk, in order, each carrying that
/// chunk's lossy decoding — so the concatenated text of the output events is
/// the decoding of the chunks in order — followed by exactly one exit event.
pub proof fn lemma_session_run_events(session_id: u32, chunks: Seq<Seq<u8>>)
    ensures
        reader_events(
            session_id,
            chunks.map_values(|b: Seq<u8>| ReadOutcomeView::Data(b)).push(ReadOutcomeView::Eof),
        ) == chunks.map_values(
            |b: Seq<u8>| PtyEventView::Output { session_id, text: lossy_utf8(b) },
        ).push(PtyEventView::Exit { session_id }),
        concat_output_texts(
            reader_events(
                session_id,
                chunks.map_values(|b: Seq<u8>| ReadOutcomeView::Data(b)).push(
                    ReadOutcomeView::Eof,
                ),
            ),
        ) == concat_lossy(chunks),
    decreases chunks.len(),
{
    let outcomes = chunks.map_values(|b: Seq<u8>| ReadOutcomeView::Data(b)).push(
        ReadOutcomeView::Eof,
    );
    let events = chunks.map_values(
        |b: Seq<u8>| PtyEventView::Output { session_id, text: lossy_utf8(b) },
    ).push(PtyEventView::Exit { session_id });
    if chunks.len() == 0 {
        assert(outcomes[0] == ReadOutcomeView::Eof);
        assert(reader_events(session_id, outcomes) =~= events);
        assert(events.len() == 1);
        assert(events[0] == (PtyEventView::Exit { session_id }));
        assert(events.drop_first() =~= Seq::<PtyEventView>::empty());
        assert(concat_output_texts(events.drop_first()) == Seq::<char>::empty());
        assert(concat_output_texts(reader_events(session_id, outcomes)) =~= concat_lossy(
            chunks,
        ));
    } else {
        lemma_session_run_events(session_id, chunks.drop_first());
        assert(outcomes[0] == ReadOutcomeView::Data(chunks[0]));
        assert(outcomes.drop_first() =~= chunks.drop_first().map_values(
            |b: Seq<u8>| ReadOutcomeView::Data(b),
        ).push(ReadOutcomeView::Eof));
        assert(reader_events(session_id, outcomes) =~= events);
        let rest_outcomes = chunks.drop_first().map_values(
            |b: Seq<u8>| ReadOutcomeView::Data(b),
        ).push(ReadOutcomeView::Eof);
        assert(events.drop_first() =~= reader_events(session_id, rest_outcomes));
        assert(events[0] == (PtyEventView::Output {
            session_id,
            text: lossy_utf8(chunks[0]),
        }));
        assert(concat_output_texts(events) == lossy_utf8(chunks[0]) + concat_output_texts(
            events.drop_first(),
        ));
        assert(concat_output_texts(events.drop_first()) == concat_lossy(chunks.drop_first()));
        assert(concat_lossy(chunks) == lossy_utf8(chunks[0]) + concat_lossy(
            chunks.drop_first(),
        ));
    }
}

/// No output event ever follows a session's exit event: an exit event only
/// occurs as the last event the reader emits.
pub proof fn lemma_exit_event_is_last(session_id: u32, outcomes: Seq<ReadOutcomeView>, i: int)
    requires
        0 <= i < reader_events(session_id, outcomes).len(),
        reader_events(session_id, outcomes)[i] is Exit,
    ensures
        i == reader_events(session_id, outcomes).len() - 1,
    decreases outcomes.len(),
{
    if outcomes.len() > 0 {
        match outcomes[0] {
            ReadOutcomeView::Data(bytes) => {
                lemma_exit_event_is_last(session_id, outcomes.drop_first(), i - 1);
            },
            ReadOutcomeView::Eof => {},
            ReadOutcomeView::ReadError => {},
        }
    }
}

} // verus!
