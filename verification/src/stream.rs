//! The video stream: the frames that the pipeline delivers are written to the track, one
//! after the other, and what comes back on the track is read and discarded.

use vstd::prelude::*;

use crate::notice::Notice;
use crate::step::Step;
#[allow(unused_imports)]
use crate::step::{silent, telling, StepView};

verus! {

/// The size of the buffer into which incoming RTCP packets are read and discarded.
pub const RTCP_BUFFER_LEN: usize = 1500;

/// Why a frame could not be written.
#[derive(Debug, PartialEq, Eq)]
pub enum WriteFailure {
    /// The peer connection is closed.
    ClosedPipe,
    Other(String),
}

/// What the stream asks for.
#[derive(Debug, PartialEq, Eq)]
pub enum StreamCommand {
    /// Wait for the next frame.
    Receive,
    /// Write the frame to the track.
    Write(Vec<u8>),
}

/// What the stream is told.
#[derive(Debug, PartialEq, Eq)]
pub enum StreamEvent {
    /// The next frame, or that there will be none.
    Received(Option<Vec<u8>>),
    Written(Result<(), WriteFailure>),
}

/// What the stream is waiting for.
#[derive(Debug, PartialEq, Eq)]
pub enum Stream {
    Waiting,
    Writing,
    Stopped,
}

/// How the stream starts.
pub open spec fn start_spec() -> StepView<Stream, StreamCommand> {
    silent(Stream::Waiting, Some(StreamCommand::Receive))
}

/// What an event leads to. An event that is not awaited changes nothing.
pub open spec fn flow_spec(state: Stream, event: StreamEvent) -> StepView<Stream, StreamCommand> {
    match (state, event) {
        (Stream::Waiting, StreamEvent::Received(Some(frame))) => silent(
            Stream::Writing,
            Some(StreamCommand::Write(frame)),
        ),
        (Stream::Waiting, StreamEvent::Received(None)) => silent(Stream::Stopped, None),
        (Stream::Writing, StreamEvent::Written(Ok(_))) => silent(
            Stream::Waiting,
            Some(StreamCommand::Receive),
        ),
        (Stream::Writing, StreamEvent::Written(Err(failure))) => telling(
            Stream::Waiting,
            match failure {
                WriteFailure::ClosedPipe => Notice::PeerClosed,
                WriteFailure::Other(err) => Notice::TrackWriteFailed(err),
            },
            Some(StreamCommand::Receive),
        ),
        _ => silent(state, None),
    }
}

impl Stream {
    /// Starts the stream.
    pub fn start() -> (step: Step<Stream, StreamCommand>)
        ensures
            step@ == start_spec(),
    {
        Step::silent(Stream::Waiting, Some(StreamCommand::Receive))
    }

    /// Goes on with an event. An event that is not awaited changes nothing.
    pub fn flow(self, event: StreamEvent) -> (step: Step<Stream, StreamCommand>)
        ensures
            step@ == flow_spec(self, event),
    {
        match (self, event) {
            (Stream::Waiting, StreamEvent::Received(received)) => match received {
                Some(frame) => Step::silent(Stream::Writing, Some(StreamCommand::Write(frame))),
                None => Step::silent(Stream::Stopped, None),
            },
            (Stream::Writing, StreamEvent::Written(written)) => match written {
                Ok(_) => Step::silent(Stream::Waiting, Some(StreamCommand::Receive)),
                Err(failure) => {
                    let notice = match failure {
                        WriteFailure::ClosedPipe => Notice::PeerClosed,
                        WriteFailure::Other(err) => Notice::TrackWriteFailed(err),
                    };
                    Step::telling(Stream::Waiting, notice, Some(StreamCommand::Receive))
                },
            },
            (state, _) => Step::silent(state, None),
        }
    }
}

/// Where the stream stands after the given events.
pub open spec fn stream_after(events: Seq<StreamEvent>) -> StepView<Stream, StreamCommand>
    decreases events.len(),
{
    if events.len() == 0 {
        start_spec()
    } else {
        flow_spec(stream_after(events.drop_last()).state, events.last())
    }
}

/// The frames that the stream has taken in the course of the given events.
pub open spec fn frames_taken(events: Seq<StreamEvent>) -> Seq<Seq<u8>>
    decreases events.len(),
{
    if events.len() == 0 {
        Seq::empty()
    } else {
        let before = frames_taken(events.drop_last());
        match events.last() {
            StreamEvent::Received(Some(frame)) if stream_after(events.drop_last()).state
                is Waiting => before.push(frame@),
            _ => before,
        }
    }
}

/// The frames that the stream has handed to the track in the course of the given events.
pub open spec fn frames_written(events: Seq<StreamEvent>) -> Seq<Seq<u8>>
    decreases events.len(),
{
    if events.len() == 0 {
        Seq::empty()
    } else {
        let before = frames_written(events.drop_last());
        match stream_after(events).command {
            Some(StreamCommand::Write(frame)) => before.push(frame@),
            _ => before,
        }
    }
}

/// Every frame taken is written, unchanged and in the order of arrival, whatever became of
/// the frames before it; nothing else is written.
pub proof fn law_frames_are_written_in_order(events: Seq<StreamEvent>)
    ensures
        frames_written(events) == frames_taken(events),
    decreases events.len(),
{
    if events.len() > 0 {
        law_frames_are_written_in_order(events.drop_last());
    }
}

/// The stream stops when no frame can come any more, and for no other reason: a frame that
/// could not be written does not end it. Having stopped, it asks for nothing.
pub proof fn law_stops_only_when_closed(state: Stream, event: StreamEvent)
    ensures
        state !is Stopped ==> (flow_spec(state, event).state is Stopped <==> state is Waiting
            && event == StreamEvent::Received(None)),
        state is Stopped ==> flow_spec(state, event) == silent::<Stream, StreamCommand>(
            state,
            None,
        ),
{
}

/// Whether `event` is a report on `command`.
pub open spec fn stream_report(event: StreamEvent, command: StreamCommand) -> bool {
    match command {
        StreamCommand::Receive => event is Received,
        StreamCommand::Write(_) => event is Written,
    }
}

/// Whether every event was a report on the command given just before it.
pub open spec fn stream_well_run(events: Seq<StreamEvent>) -> bool
    decreases events.len(),
{
    events.len() == 0 || {
        &&& stream_well_run(events.drop_last())
        &&& stream_after(events.drop_last()).command matches Some(command) && stream_report(
            events.last(),
            command,
        )
    }
}

/// As long as the events are reports on the commands given, the stream always has a next
/// command until it stops.
pub proof fn law_stream_goes_on(events: Seq<StreamEvent>)
    requires
        stream_well_run(events),
    ensures
        stream_after(events).command is None <==> stream_after(events).state is Stopped,
{
    lemma_stream_goes_on(events);
}

proof fn lemma_stream_goes_on(events: Seq<StreamEvent>)
    requires
        stream_well_run(events),
    ensures
        ({
            let step = stream_after(events);
            match step.state {
                Stream::Waiting => step.command is Some && step.command->0 is Receive,
                Stream::Writing => step.command is Some && step.command->0 is Write,
                Stream::Stopped => step.command is None,
            }
        }),
    decreases events.len(),
{
    if events.len() > 0 {
        lemma_stream_goes_on(events.drop_last());
    }
}

/// What the reader of the track's RTCP packets asks for.
#[derive(Debug, PartialEq, Eq)]
pub enum DrainCommand {
    /// Read the next packet into a buffer of this size.
    Read(usize),
}

/// Whether the reader of the track's RTCP packets is still on.
#[derive(Debug, PartialEq, Eq)]
pub enum Drain {
    Reading,
    Stopped,
}

/// Another read.
pub open spec fn drain_spec() -> StepView<Drain, DrainCommand> {
    silent(Drain::Reading, Some(DrainCommand::Read(RTCP_BUFFER_LEN)))
}

/// What a read leads to: another one if it succeeded, and otherwise the end. After the end
/// nothing changes any more.
pub open spec fn drained_spec(state: Drain, succeeded: bool) -> StepView<Drain, DrainCommand> {
    if state is Reading && succeeded {
        drain_spec()
    } else {
        silent(Drain::Stopped, None)
    }
}

impl Drain {
    /// Starts to read.
    pub fn start() -> (step: Step<Drain, DrainCommand>)
        ensures
            step@ == drain_spec(),
    {
        Step::silent(Drain::Reading, Some(DrainCommand::Read(RTCP_BUFFER_LEN)))
    }

    /// Goes on after a read. After the end nothing changes any more.
    pub fn resume(self, succeeded: bool) -> (step: Step<Drain, DrainCommand>)
        ensures
            step@ == drained_spec(self, succeeded),
    {
        match self {
            Drain::Reading => if succeeded {
                Drain::start()
            } else {
                Step::silent(Drain::Stopped, None)
            },
            Drain::Stopped => Step::silent(Drain::Stopped, None),
        }
    }
}

/// Where the reader stands after reads of which each succeeded or not, as given.
pub open spec fn drain_after(reads: Seq<bool>) -> StepView<Drain, DrainCommand>
    decreases reads.len(),
{
    if reads.len() == 0 {
        drain_spec()
    } else {
        drained_spec(drain_after(reads.drop_last()).state, reads.last())
    }
}

/// Packets are read until the first read that fails, and never again after it.
pub proof fn law_reading_ends_at_the_first_failure(reads: Seq<bool>)
    ensures
        drain_after(reads) == (if reads.contains(false) {
            silent(Drain::Stopped, None)
        } else {
            drain_spec()
        }),
    decreases reads.len(),
{
    if reads.len() > 0 {
        let before = reads.drop_last();
        law_reading_ends_at_the_first_failure(before);
        if before.contains(false) {
            let i = choose|i: int| 0 <= i < before.len() && before[i] == false;
            assert(reads[i] == before[i]);
        }
        if reads.contains(false) && reads.last() {
            let i = choose|i: int| 0 <= i < reads.len() && reads[i] == false;
            assert(before[i] == reads[i]);
        }
        assert(reads[reads.len() - 1] == reads.last());
    }
}

/// As long as the events are reports on the commands given: a frame is written as it is, and
/// then, whatever became of it, the next one is waited for, until none can come any more. Only
/// failures are printed: a closed connection as such, any other with its reason.
pub proof fn law_what_becomes_of_a_frame(events: Seq<StreamEvent>)
    requires
        stream_well_run(events),
    ensures
        ({
            let step = stream_after(events);
            &&& events.len() == 0 ==> {
                &&& step.command == Some(StreamCommand::Receive)
                &&& step.notices.len() == 0
            }
            &&& events.len() > 0 ==> match events.last() {
                StreamEvent::Received(received) => {
                    &&& received matches Some(frame) ==> step.command == Some(
                        StreamCommand::Write(frame),
                    )
                    &&& received is None ==> step.command is None
                    &&& step.notices.len() == 0
                },
                StreamEvent::Written(written) => {
                    &&& step.command == Some(StreamCommand::Receive)
                    &&& written is Ok ==> step.notices.len() == 0
                    &&& written matches Err(WriteFailure::ClosedPipe) ==> step.notices == seq![
                        Notice::PeerClosed,
                    ]
                    &&& written matches Err(WriteFailure::Other(err)) ==> step.notices == seq![
                        Notice::TrackWriteFailed(err),
                    ]
                },
            }
        }),
{
    if events.len() > 0 {
        lemma_stream_goes_on(events.drop_last());
    }
}

/// Whether another packet is asked for depends on the reads alone: it is as long as none has
/// failed, always into a buffer of the same size, and nothing is ever printed.
pub proof fn law_a_read_follows_unless_one_failed(reads: Seq<bool>)
    ensures
        drain_after(reads).command == (if reads.contains(false) {
            None
        } else {
            Some(DrainCommand::Read(RTCP_BUFFER_LEN))
        }),
        drain_after(reads).notices.len() == 0,
{
    law_reading_ends_at_the_first_failure(reads);
}

/// An event that is not awaited changes nothing; neither does any event after the end.
pub proof fn law_unawaited_events_change_nothing(state: Stream, event: StreamEvent)
    requires
        !((state is Waiting && event is Received)
            || (state is Writing && event is Written)),
    ensures
        flow_spec(state, event).state == state,
        flow_spec(state, event).command is None,
        flow_spec(state, event).notices.len() == 0,
{
}

} // verus!
