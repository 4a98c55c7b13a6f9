//! The video pipeline: how it is put together, what is made of the messages on its bus, and
//! how the samples at its end become frames.

use vstd::prelude::*;

use crate::notice::Notice;
use crate::step::Step;
#[allow(unused_imports)]
use crate::step::{silent, telling, StepView};

verus! {

/// Where the video comes from.
#[derive(Debug, PartialEq, Eq)]
pub struct VideoConfig {
    /// The capture device; without one the source picks its own.
    pub device: Option<String>,
}

impl Clone for VideoConfig {
    fn clone(&self) -> (copy: Self)
        ensures
            copy == *self,
    {
        VideoConfig { device: self.device.clone() }
    }
}

impl VideoConfig {
    /// The configuration that captures from the given device.
    pub fn with_source(device: String) -> (config: Self)
        ensures
            config == (VideoConfig { device: Some(device) }),
    {
        VideoConfig { device: Some(device) }
    }
}

/// The elements of the pipeline, in the order in which they are linked.
#[derive(Clone, Copy, Debug, PartialEq, Eq, Structural)]
pub enum Element {
    Source,
    Convert,
    Encode,
    Pay,
    Sink,
}

impl Element {
    /// The factory that makes the element.
    pub open spec fn factory_spec(self) -> Seq<char> {
        match self {
            Element::Source => "v4l2src"@,
            Element::Convert => "videoconvert"@,
            Element::Encode => "vp8enc"@,
            Element::Pay => "rtpvp8pay"@,
            Element::Sink => "appsink"@,
        }
    }

    /// The name of the element in the pipeline.
    pub open spec fn name_spec(self) -> Seq<char> {
        match self {
            Element::Source => "source"@,
            Element::Convert => "videoconvert"@,
            Element::Encode => "vp8enc"@,
            Element::Pay => "rtp"@,
            Element::Sink => "udp sink"@,
        }
    }

    /// The element that follows.
    pub open spec fn next_spec(self) -> Option<Element> {
        match self {
            Element::Source => Some(Element::Convert),
            Element::Convert => Some(Element::Encode),
            Element::Encode => Some(Element::Pay),
            Element::Pay => Some(Element::Sink),
            Element::Sink => None,
        }
    }

    /// The factory that makes the element.
    pub fn factory(self) -> (factory: &'static str)
        ensures
            factory@ == self.factory_spec(),
    {
        match self {
            Element::Source => "v4l2src",
            Element::Convert => "videoconvert",
            Element::Encode => "vp8enc",
            Element::Pay => "rtpvp8pay",
            Element::Sink => "appsink",
        }
    }

    /// The name of the element in the pipeline.
    pub fn name(self) -> (name: &'static str)
        ensures
            name@ == self.name_spec(),
    {
        match self {
            Element::Source => "source",
            Element::Convert => "videoconvert",
            Element::Encode => "vp8enc",
            Element::Pay => "rtp",
            Element::Sink => "udp sink",
        }
    }

    /// The element that follows.
    pub fn next(self) -> (next: Option<Element>)
        ensures
            next == self.next_spec(),
    {
        match self {
            Element::Source => Some(Element::Convert),
            Element::Convert => Some(Element::Encode),
            Element::Encode => Some(Element::Pay),
            Element::Pay => Some(Element::Sink),
            Element::Sink => None,
        }
    }
}

/// The elements in the order in which they are linked.
pub open spec fn chain_spec() -> [Element; 5] {
    [Element::Source, Element::Convert, Element::Encode, Element::Pay, Element::Sink]
}

/// The elements in the order in which they are linked.
pub fn chain() -> (elements: [Element; 5])
    ensures
        elements == chain_spec(),
{
    [Element::Source, Element::Convert, Element::Encode, Element::Pay, Element::Sink]
}

/// The name of the pipeline.
pub open spec fn pipeline_name_spec() -> Seq<char> {
    "live-pipe"@
}

/// The name of the pipeline.
pub fn pipeline_name() -> (name: &'static str)
    ensures
        name@ == pipeline_name_spec(),
{
    "live-pipe"
}

/// What to do next to put the pipeline together.
#[derive(Debug, PartialEq, Eq)]
pub enum BuildCommand {
    Initialize,
    Make(Element),
    /// Set the device of the element.
    SetDevice { element: Element, device: String },
    CreatePipeline,
    /// Add these elements to the pipeline.
    AddElements([Element; 5]),
    /// Link these elements, each to the one that follows.
    LinkElements([Element; 5]),
    FindBus,
    /// Watch the bus on a thread of its own.
    WatchBus,
}

/// What became of a command.
#[derive(Debug, PartialEq, Eq)]
pub enum BuildEvent<E> {
    Done,
    Failed(E),
    /// Whether the pipeline has a bus.
    Bus(bool),
}

/// How far the pipeline has come; the device is kept until the elements are made.
#[derive(Debug, PartialEq, Eq)]
pub enum Build<E> {
    Initializing(Option<String>),
    Making(Element, Option<String>),
    SettingDevice,
    CreatingPipeline,
    Adding,
    Linking,
    FindingBus,
    Built,
    /// Ended by this error.
    Failed(E),
}

/// How the building starts.
pub open spec fn build_spec<E>(config: VideoConfig) -> StepView<Build<E>, BuildCommand> {
    silent(Build::Initializing(config.device), Some(BuildCommand::Initialize))
}

/// What an outcome leads to. Making, adding and linking can fail, and then the building
/// ends with the error; an outcome that a command cannot have changes nothing.
pub open spec fn built_spec<E>(state: Build<E>, event: BuildEvent<E>) -> StepView<
    Build<E>,
    BuildCommand,
> {
    match (state, event) {
        (Build::Initializing(device), BuildEvent::Done) => silent(
            Build::Making(Element::Source, device),
            Some(BuildCommand::Make(Element::Source)),
        ),
        (Build::Making(element, device), BuildEvent::Done) => match (
            element.next_spec(),
            device,
        ) {
            (Some(next), _) => silent(
                Build::Making(next, device),
                Some(BuildCommand::Make(next)),
            ),
            (None, Some(path)) => silent(
                Build::SettingDevice,
                Some(BuildCommand::SetDevice { element: Element::Source, device: path }),
            ),
            (None, None) => silent(Build::CreatingPipeline, Some(BuildCommand::CreatePipeline)),
        },
        (Build::SettingDevice, BuildEvent::Done) => silent(
            Build::CreatingPipeline,
            Some(BuildCommand::CreatePipeline),
        ),
        (Build::CreatingPipeline, BuildEvent::Done) => silent(
            Build::Adding,
            Some(BuildCommand::AddElements(chain_spec())),
        ),
        (Build::Adding, BuildEvent::Done) => silent(
            Build::Linking,
            Some(BuildCommand::LinkElements(chain_spec())),
        ),
        (Build::Linking, BuildEvent::Done) => silent(
            Build::FindingBus,
            Some(BuildCommand::FindBus),
        ),
        (Build::FindingBus, BuildEvent::Bus(true)) => telling(
            Build::Built,
            Notice::ListeningToPipeline,
            Some(BuildCommand::WatchBus),
        ),
        (Build::FindingBus, BuildEvent::Bus(false)) => silent(Build::Built, None),
        (Build::Making(_, _) | Build::Adding | Build::Linking, BuildEvent::Failed(err)) => silent(
            Build::Failed(err),
            None,
        ),
        _ => silent(state, None),
    }
}

impl<E> Build<E> {
    /// Starts to put the pipeline together.
    pub fn begin(config: VideoConfig) -> (step: Step<Build<E>, BuildCommand>)
        ensures
            step@ == build_spec::<E>(config),
    {
        Step::silent(Build::Initializing(config.device), Some(BuildCommand::Initialize))
    }

    /// Goes on with the outcome of the last command. An outcome that it cannot have changes
    /// nothing.
    pub fn resume(self, event: BuildEvent<E>) -> (step: Step<Build<E>, BuildCommand>)
        ensures
            step@ == built_spec(self, event),
    {
        match (self, event) {
            (Build::Initializing(device), BuildEvent::Done) => Step::silent(
                Build::Making(Element::Source, device),
                Some(BuildCommand::Make(Element::Source)),
            ),
            (Build::Making(element, device), BuildEvent::Done) => match element.next() {
                Some(next) => Step::silent(
                    Build::Making(next, device),
                    Some(BuildCommand::Make(next)),
                ),
                None => match device {
                    Some(path) => Step::silent(
                        Build::SettingDevice,
                        Some(BuildCommand::SetDevice { element: Element::Source, device: path }),
                    ),
                    None => Step::silent(
                        Build::CreatingPipeline,
                        Some(BuildCommand::CreatePipeline),
                    ),
                },
            },
            (Build::SettingDevice, BuildEvent::Done) => Step::silent(
                Build::CreatingPipeline,
                Some(BuildCommand::CreatePipeline),
            ),
            (Build::CreatingPipeline, BuildEvent::Done) => Step::silent(
                Build::Adding,
                Some(BuildCommand::AddElements(chain())),
            ),
            (Build::Adding, BuildEvent::Done) => Step::silent(
                Build::Linking,
                Some(BuildCommand::LinkElements(chain())),
            ),
            (Build::Linking, BuildEvent::Done) => Step::silent(
                Build::FindingBus,
                Some(BuildCommand::FindBus),
            ),
            (Build::FindingBus, BuildEvent::Bus(present)) => {
                if present {
                    Step::telling(
                        Build::Built,
                        Notice::ListeningToPipeline,
                        Some(BuildCommand::WatchBus),
                    )
                } else {
                    Step::silent(Build::Built, None)
                }
            },
            (Build::Making(_, _), BuildEvent::Failed(err)) => Step::silent(
                Build::Failed(err),
                None,
            ),
            (Build::Adding, BuildEvent::Failed(err)) => Step::silent(
                Build::Failed(err),
                None,
            ),
            (Build::Linking, BuildEvent::Failed(err)) => Step::silent(
                Build::Failed(err),
                None,
            ),
            (state, _) => Step::silent(state, None),
        }
    }

    /// What the building ends with, once it has ended: the element from which frames can be
    /// taken, or the error that ended it.
    pub fn outcome(self) -> (outcome: Option<Result<Element, E>>)
        ensures
            match self {
                Build::Built => outcome == Some(Ok::<Element, E>(Element::Sink)),
                Build::Failed(err) => outcome == Some(Err::<Element, E>(err)),
                _ => outcome is None,
            },
    {
        match self {
            Build::Built => Some(Ok(Element::Sink)),
            Build::Failed(err) => Some(Err(err)),
            _ => None,
        }
    }
}

/// A message on the bus of the pipeline.
#[derive(Debug, PartialEq, Eq)]
pub enum BusMessage {
    /// The end of the stream.
    Eos(String),
    /// An element failed: the path of the element, and the error.
    Error { element: String, error: String },
    /// An element changed its state; if the element is known, whether it is the pipeline.
    StateChanged { of_pipeline: Option<bool>, from: String, to: String },
    Other,
}

/// What the watch on the bus is told.
#[derive(Debug, PartialEq, Eq)]
pub enum BusEvent {
    Message(BusMessage),
    /// There are no more messages.
    Exhausted,
}

/// What the watch asks for.
#[derive(Debug, PartialEq, Eq)]
pub enum BusCommand {
    /// Wait for the next message.
    Next,
}

/// Whether the watch on the bus is still on.
#[derive(Debug, PartialEq, Eq)]
pub enum BusWatch {
    Listening,
    Stopped,
}

/// How the watch starts.
pub open spec fn watch_spec() -> StepView<BusWatch, BusCommand> {
    silent(BusWatch::Listening, Some(BusCommand::Next))
}

/// The end of the watch, after the line on what ended it.
pub open spec fn watch_ends(cause: Notice) -> StepView<BusWatch, BusCommand> {
    StepView {
        state: BusWatch::Stopped,
        notices: seq![cause, Notice::PipelineStopped],
        command: None,
    }
}

/// What an event leads to. The end of the stream and an error end the watch; of the changes
/// of state, those of the pipeline itself are printed.
pub open spec fn watched_spec(state: BusWatch, event: BusEvent) -> StepView<BusWatch, BusCommand> {
    match (state, event) {
        (BusWatch::Stopped, _) => silent(state, None),
        (BusWatch::Listening, BusEvent::Exhausted) => telling(
            BusWatch::Stopped,
            Notice::PipelineStopped,
            None,
        ),
        (BusWatch::Listening, BusEvent::Message(message)) => match message {
            BusMessage::Eos(eos) => watch_ends(Notice::SourceExhausted(eos)),
            BusMessage::Error { element, error } => watch_ends(
                Notice::ElementFailed { element, error },
            ),
            BusMessage::StateChanged { of_pipeline: Some(true), from, to } => telling(
                BusWatch::Listening,
                Notice::PipelineStateChanged { from, to },
                Some(BusCommand::Next),
            ),
            _ => silent(BusWatch::Listening, Some(BusCommand::Next)),
        },
    }
}

impl BusWatch {
    /// Starts the watch on the bus.
    pub fn start() -> (step: Step<BusWatch, BusCommand>)
        ensures
            step@ == watch_spec(),
    {
        Step::silent(BusWatch::Listening, Some(BusCommand::Next))
    }

    /// Goes on with an event. After the watch has ended, events change nothing.
    pub fn resume(self, event: BusEvent) -> (step: Step<BusWatch, BusCommand>)
        ensures
            step@ == watched_spec(self, event),
    {
        match (self, event) {
            (BusWatch::Stopped, _) => Step::silent(BusWatch::Stopped, None),
            (BusWatch::Listening, BusEvent::Exhausted) => Step::telling(
                BusWatch::Stopped,
                Notice::PipelineStopped,
                None,
            ),
            (BusWatch::Listening, BusEvent::Message(message)) => match message {
                BusMessage::Eos(eos) => Step {
                    state: BusWatch::Stopped,
                    notices: vec![Notice::SourceExhausted(eos), Notice::PipelineStopped],
                    command: None,
                },
                BusMessage::Error { element, error } => Step {
                    state: BusWatch::Stopped,
                    notices: vec![
                        Notice::ElementFailed { element, error },
                        Notice::PipelineStopped,
                    ],
                    command: None,
                },
                BusMessage::StateChanged { of_pipeline: Some(true), from, to } => Step::telling(
                    BusWatch::Listening,
                    Notice::PipelineStateChanged { from, to },
                    Some(BusCommand::Next),
                ),
                _ => Step::silent(BusWatch::Listening, Some(BusCommand::Next)),
            },
        }
    }
}

/// What goes wrong when the end of the pipeline is not an app sink.
pub open spec fn cast_error() -> Seq<char> {
    "Cast to app sink failed"@
}

/// Whether frames can be taken from the end of the pipeline: only if it is an app sink.
pub fn check_sink(is_app_sink: bool) -> (r: Result<(), String>)
    ensures
        r is Ok <==> is_app_sink,
        r matches Err(err) ==> err@ == cast_error(),
{
    if is_app_sink {
        Ok(())
    } else {
        Err("Cast to app sink failed".to_string())
    }
}

/// Why there is no frame in a sample.
#[derive(Clone, Copy, Debug, PartialEq, Eq, Structural)]
pub enum SampleFailure {
    NoBuffer,
    NotReadable,
}

impl SampleFailure {
    /// The text under which the failure is reported.
    pub open spec fn text(self) -> Seq<char> {
        match self {
            SampleFailure::NoBuffer => "Failed to get buffer from appsink"@,
            SampleFailure::NotReadable => "Failed to map buffer readable"@,
        }
    }

    /// The text under which the failure is reported.
    pub fn message(self) -> (message: &'static str)
        ensures
            message@ == self.text(),
    {
        match self {
            SampleFailure::NoBuffer => "Failed to get buffer from appsink",
            SampleFailure::NotReadable => "Failed to map buffer readable",
        }
    }
}

/// What the sink is told about a sample.
#[derive(Clone, Copy, Debug, PartialEq, Eq, Structural)]
pub enum Flow {
    Success,
    Eos,
    Error,
}

/// What to do next with a sample.
#[derive(Debug, PartialEq, Eq)]
pub enum SampleCommand {
    /// Pull the sample from the sink.
    Pull,
    TakeBuffer,
    /// Map the buffer and copy its bytes.
    MapBuffer,
    /// Report the failure as an error of the sink.
    Report(SampleFailure),
    /// Hand the bytes to the stream.
    Send(Vec<u8>),
}

/// What became of a command.
#[derive(Debug, PartialEq, Eq)]
pub enum SampleEvent {
    /// Whether there was a sample.
    Pulled(bool),
    /// Whether the sample has a buffer.
    BufferTaken(bool),
    /// The bytes in the buffer, if they could be read.
    Mapped(Option<Vec<u8>>),
    Reported,
    /// Whether the stream took the bytes.
    Sent(bool),
}

/// How far a sample has come.
#[derive(Debug, PartialEq, Eq)]
pub enum Sample {
    Pulling,
    TakingBuffer,
    Mapping,
    Reporting,
    Sending,
    Finished(Flow),
}

/// What the sink's call for a new sample starts.
pub open spec fn sample_spec() -> StepView<Sample, SampleCommand> {
    silent(Sample::Pulling, Some(SampleCommand::Pull))
}

/// What an outcome leads to. One that is not awaited changes nothing, and whether the stream
/// took the bytes makes no difference.
pub open spec fn sampled_spec(state: Sample, event: SampleEvent) -> StepView<
    Sample,
    SampleCommand,
> {
    match (state, event) {
        (Sample::Pulling, SampleEvent::Pulled(true)) => silent(
            Sample::TakingBuffer,
            Some(SampleCommand::TakeBuffer),
        ),
        (Sample::Pulling, SampleEvent::Pulled(false)) => silent(Sample::Finished(Flow::Eos), None),
        (Sample::TakingBuffer, SampleEvent::BufferTaken(true)) => silent(
            Sample::Mapping,
            Some(SampleCommand::MapBuffer),
        ),
        (Sample::TakingBuffer, SampleEvent::BufferTaken(false)) => silent(
            Sample::Reporting,
            Some(SampleCommand::Report(SampleFailure::NoBuffer)),
        ),
        (Sample::Mapping, SampleEvent::Mapped(Some(bytes))) => silent(
            Sample::Sending,
            Some(SampleCommand::Send(bytes)),
        ),
        (Sample::Mapping, SampleEvent::Mapped(None)) => silent(
            Sample::Reporting,
            Some(SampleCommand::Report(SampleFailure::NotReadable)),
        ),
        (Sample::Reporting, SampleEvent::Reported) => silent(Sample::Finished(Flow::Error), None),
        (Sample::Sending, SampleEvent::Sent(_)) => silent(Sample::Finished(Flow::Success), None),
        _ => silent(state, None),
    }
}

impl Sample {
    /// Starts with the sink's call for a new sample.
    pub fn begin() -> (step: Step<Sample, SampleCommand>)
        ensures
            step@ == sample_spec(),
    {
        Step::silent(Sample::Pulling, Some(SampleCommand::Pull))
    }

    /// Goes on with the outcome of the last command. One that is not awaited changes nothing.
    pub fn resume(self, event: SampleEvent) -> (step: Step<Sample, SampleCommand>)
        ensures
            step@ == sampled_spec(self, event),
    {
        match (self, event) {
            (Sample::Pulling, SampleEvent::Pulled(pulled)) => {
                if pulled {
                    Step::silent(Sample::TakingBuffer, Some(SampleCommand::TakeBuffer))
                } else {
                    Step::silent(Sample::Finished(Flow::Eos), None)
                }
            },
            (Sample::TakingBuffer, SampleEvent::BufferTaken(taken)) => {
                if taken {
                    Step::silent(Sample::Mapping, Some(SampleCommand::MapBuffer))
                } else {
                    Step::silent(
                        Sample::Reporting,
                        Some(SampleCommand::Report(SampleFailure::NoBuffer)),
                    )
                }
            },
            (Sample::Mapping, SampleEvent::Mapped(mapped)) => match mapped {
                Some(bytes) => Step::silent(Sample::Sending, Some(SampleCommand::Send(bytes))),
                None => Step::silent(
                    Sample::Reporting,
                    Some(SampleCommand::Report(SampleFailure::NotReadable)),
                ),
            },
            (Sample::Reporting, SampleEvent::Reported) => Step::silent(
                Sample::Finished(Flow::Error),
                None,
            ),
            (Sample::Sending, SampleEvent::Sent(_)) => Step::silent(
                Sample::Finished(Flow::Success),
                None,
            ),
            (state, _) => Step::silent(state, None),
        }
    }
}

/// Where the building stands after the given outcomes.
pub open spec fn build_after<E>(config: VideoConfig, events: Seq<BuildEvent<E>>) -> StepView<
    Build<E>,
    BuildCommand,
>
    decreases events.len(),
{
    if events.len() == 0 {
        build_spec(config)
    } else {
        built_spec(build_after(config, events.drop_last()).state, events.last())
    }
}

/// The commands that put the pipeline together when nothing fails, up to the bus.
pub open spec fn build_plan(config: VideoConfig) -> Seq<BuildCommand> {
    let elements = seq![
        BuildCommand::Initialize,
        BuildCommand::Make(Element::Source),
        BuildCommand::Make(Element::Convert),
        BuildCommand::Make(Element::Encode),
        BuildCommand::Make(Element::Pay),
        BuildCommand::Make(Element::Sink),
    ];
    let device = match config.device {
        Some(path) => seq![
            BuildCommand::SetDevice { element: Element::Source, device: path },
        ],
        None => Seq::empty(),
    };
    let pipeline = seq![
        BuildCommand::CreatePipeline,
        BuildCommand::AddElements(chain_spec()),
        BuildCommand::LinkElements(chain_spec()),
        BuildCommand::FindBus,
    ];
    elements + device + pipeline
}

/// `n` outcomes without a failure.
pub open spec fn all_done<E>(n: nat) -> Seq<BuildEvent<E>> {
    Seq::new(n, |i: int| BuildEvent::Done)
}

/// Where the building stands while the command at place `n` of the plan is carried out.
spec fn build_stage<E>(config: VideoConfig, n: nat) -> Build<E> {
    let device = config.device;
    let rest: int = if device is Some {
        n - 1
    } else {
        n as int
    };
    if n == 0 {
        Build::Initializing(device)
    } else if n == 1 {
        Build::Making(Element::Source, device)
    } else if n == 2 {
        Build::Making(Element::Convert, device)
    } else if n == 3 {
        Build::Making(Element::Encode, device)
    } else if n == 4 {
        Build::Making(Element::Pay, device)
    } else if n == 5 {
        Build::Making(Element::Sink, device)
    } else if rest == 5 {
        Build::SettingDevice
    } else if rest == 6 {
        Build::CreatingPipeline
    } else if rest == 7 {
        Build::Adding
    } else if rest == 8 {
        Build::Linking
    } else {
        Build::FindingBus
    }
}

proof fn lemma_build_follows_the_plan<E>(config: VideoConfig, n: nat)
    requires
        n < build_plan(config).len(),
    ensures
        build_after(config, all_done::<E>(n)) == silent(
            build_stage::<E>(config, n),
            Some(build_plan(config)[n as int]),
        ),
    decreases n,
{
    if n > 0 {
        lemma_build_follows_the_plan::<E>(config, (n - 1) as nat);
        assert(all_done::<E>(n).drop_last() =~= all_done::<E>((n - 1) as nat));
        assert(all_done::<E>(n).last() == BuildEvent::<E>::Done);
    }
}

/// As long as nothing fails, the pipeline is put together step by step as planned: the
/// elements from source to sink, the device if one is configured, the pipeline around them,
/// the links, and last the bus.
pub proof fn law_build_follows_the_plan<E>(config: VideoConfig, n: nat)
    requires
        n < build_plan(config).len(),
    ensures
        build_after(config, all_done::<E>(n)).command == Some(build_plan(config)[n as int]),
        build_after(config, all_done::<E>(n)).notices.len() == 0,
{
    lemma_build_follows_the_plan::<E>(config, n);
}

/// Once the plan is carried out, the pipeline is built whether it has a bus or not; a bus
/// that it has is watched.
pub proof fn law_plan_ends_in_a_pipeline<E>(config: VideoConfig, bus: bool)
    ensures
        ({
            let events = all_done::<E>((build_plan(config).len() - 1) as nat).push(BuildEvent::Bus(bus));
            let step = build_after(config, events);
            &&& step.state is Built
            &&& step.command == (if bus {
                Some(BuildCommand::WatchBus)
            } else {
                None
            })
        }),
{
    let n = (build_plan(config).len() - 1) as nat;
    lemma_build_follows_the_plan::<E>(config, n);
    assert(all_done::<E>(n).push(BuildEvent::Bus(bus)).drop_last() =~= all_done::<E>(n));
}

/// The commands that can fail.
pub open spec fn can_fail(command: BuildCommand) -> bool {
    command is Make || command is AddElements || command is LinkElements
}

/// The first failure ends the building for good, with its own error: whatever is reported
/// afterwards, nothing more is done and the error stays the same.
pub proof fn law_build_ends_at_the_first_failure<E>(
    config: VideoConfig,
    n: nat,
    err: E,
    later: Seq<BuildEvent<E>>,
)
    requires
        n < build_plan(config).len(),
        can_fail(build_plan(config)[n as int]),
    ensures
        build_after(config, all_done::<E>(n).push(BuildEvent::Failed(err)) + later) == silent::<
            Build<E>,
            BuildCommand,
        >(Build::Failed(err), None),
    decreases later.len(),
{
    let events = all_done::<E>(n).push(BuildEvent::Failed(err)) + later;
    if later.len() == 0 {
        lemma_build_follows_the_plan::<E>(config, n);
        assert(events.drop_last() =~= all_done::<E>(n));
    } else {
        law_build_ends_at_the_first_failure(config, n, err, later.drop_last());
        assert(events.drop_last() =~= all_done::<E>(n).push(BuildEvent::Failed(err))
            + later.drop_last());
    }
}

/// The chain starts at the source, each element in it is the one that follows the one before,
/// and it ends at the sink.
pub proof fn law_chain_is_linked_in_order(i: int)
    requires
        0 <= i < 5,
    ensures
        chain_spec()@[0] == Element::Source,
        chain_spec()@[i].next_spec() == (if i < 4 {
            Some(chain_spec()@[i + 1])
        } else {
            None
        }),
{
}

/// The watch says that it has stopped in the step in which it stops, as the last thing, and
/// in no other step.
pub proof fn law_watch_says_when_it_stops(state: BusWatch, event: BusEvent)
    ensures
        ({
            let step = watched_spec(state, event);
            let stops = state is Listening && step.state is Stopped;
            &&& stops ==> step.notices.len() > 0 && step.notices.last() == Notice::PipelineStopped
            &&& !stops ==> !step.notices.contains(Notice::PipelineStopped)
            &&& step.command is Some <==> step.state is Listening
        }),
{
}

/// Where a sample stands after the given outcomes.
pub open spec fn sample_after(events: Seq<SampleEvent>) -> StepView<Sample, SampleCommand>
    decreases events.len(),
{
    if events.len() == 0 {
        sample_spec()
    } else {
        sampled_spec(sample_after(events.drop_last()).state, events.last())
    }
}

/// Whether bytes were read from the buffer of the sample.
pub open spec fn bytes_read(events: Seq<SampleEvent>) -> bool {
    exists|i: int| 0 <= i < events.len() && #[trigger] events[i] matches SampleEvent::Mapped(Some(_))
}

/// What the outcomes must have been for the sample to stand where it does.
spec fn sample_accounted(events: Seq<SampleEvent>, state: Sample) -> bool {
    match state {
        Sample::Sending | Sample::Finished(Flow::Success) => bytes_read(events),
        Sample::Reporting | Sample::Finished(Flow::Error) => events.contains(
            SampleEvent::BufferTaken(false),
        ) || events.contains(SampleEvent::Mapped(None)),
        Sample::Finished(Flow::Eos) => events.contains(SampleEvent::Pulled(false)),
        _ => true,
    }
}

proof fn lemma_kept(before: Seq<SampleEvent>, event: SampleEvent)
    ensures
        forall|other: SampleEvent|
            before.contains(other) ==> #[trigger] before.push(event).contains(other),
        bytes_read(before) ==> bytes_read(before.push(event)),
        before.push(event).contains(event),
{
    let events = before.push(event);
    assert forall|other: SampleEvent| before.contains(other) implies #[trigger] events.contains(
        other,
    ) by {
        let i = choose|i: int| 0 <= i < before.len() && before[i] == other;
        assert(events[i] == other);
    }
    if bytes_read(before) {
        let i = choose|i: int|
            0 <= i < before.len() && #[trigger] before[i] matches SampleEvent::Mapped(Some(_));
        assert(events[i] == before[i]);
    }
    assert(events[before.len() as int] == event);
}

proof fn lemma_sample_accounted(events: Seq<SampleEvent>)
    ensures
        sample_accounted(events, sample_after(events).state),
    decreases events.len(),
{
    if events.len() > 0 {
        let before = events.drop_last();
        lemma_sample_accounted(before);
        lemma_kept(before, events.last());
        assert(before.push(events.last()) =~= events);
        assert(events[events.len() - 1] == events.last());
    }
}

/// What is handed to the stream are the bytes just read from the buffer of the sample. The
/// sink is told of success only if bytes were read, of the end of the stream only if there
/// was no sample, and of an error only if there was no buffer or none that could be read.
pub proof fn law_flow_tells_what_happened(events: Seq<SampleEvent>)
    ensures
        sample_after(events).command matches Some(SampleCommand::Send(bytes)) ==> events.len() > 0
            && events.last() == SampleEvent::Mapped(Some(bytes)),
        sample_after(events).state == Sample::Finished(Flow::Success) ==> bytes_read(events),
        sample_after(events).state == Sample::Finished(Flow::Eos) ==> events.contains(
            SampleEvent::Pulled(false),
        ),
        sample_after(events).state == Sample::Finished(Flow::Error) ==> events.contains(
            SampleEvent::BufferTaken(false),
        ) || events.contains(SampleEvent::Mapped(None)),
{
    lemma_sample_accounted(events);
}

/// A sample whose bytes can be read counts as a success even if the stream does not take
/// them.
pub proof fn law_readable_sample_succeeds(bytes: Vec<u8>, taken: bool)
    ensures
        ({
            let read = seq![
                SampleEvent::Pulled(true),
                SampleEvent::BufferTaken(true),
                SampleEvent::Mapped(Some(bytes)),
            ];
            &&& sample_after(read).command == Some(SampleCommand::Send(bytes))
            &&& sample_after(read.push(SampleEvent::Sent(taken))).state == Sample::Finished(
                Flow::Success,
            )
        }),
{
    let first = seq![SampleEvent::Pulled(true)];
    let second = first.push(SampleEvent::BufferTaken(true));
    let third = second.push(SampleEvent::Mapped(Some(bytes)));
    let fourth = third.push(SampleEvent::Sent(taken));
    assert(first.drop_last() =~= Seq::empty());
    assert(second.drop_last() =~= first);
    assert(third.drop_last() =~= second);
    assert(fourth.drop_last() =~= third);
    reveal_with_fuel(sample_after, 2);
    assert(sample_after(first).state is TakingBuffer);
    assert(sample_after(second).state is Mapping);
    assert(sample_after(third).state is Sending);
    assert(third =~= seq![
        SampleEvent::Pulled(true),
        SampleEvent::BufferTaken(true),
        SampleEvent::Mapped(Some(bytes)),
    ]);
}

/// Whether `event` is the outcome of `command`.
pub open spec fn sample_outcome(event: SampleEvent, command: SampleCommand) -> bool {
    match command {
        SampleCommand::Pull => event is Pulled,
        SampleCommand::TakeBuffer => event is BufferTaken,
        SampleCommand::MapBuffer => event is Mapped,
        SampleCommand::Report(_) => event is Reported,
        SampleCommand::Send(_) => event is Sent,
    }
}

/// Whether every outcome was that of the command given just before it.
pub open spec fn sample_well_run(events: Seq<SampleEvent>) -> bool
    decreases events.len(),
{
    events.len() == 0 || {
        &&& sample_well_run(events.drop_last())
        &&& sample_after(events.drop_last()).command matches Some(command) && sample_outcome(
            events.last(),
            command,
        )
    }
}

/// As long as the outcomes are those of the commands given, there is a next command exactly
/// until the sample is finished with, and that is after four outcomes at the latest.
pub proof fn law_sample_ends(events: Seq<SampleEvent>)
    requires
        sample_well_run(events),
    ensures
        sample_after(events).command is None <==> sample_after(events).state is Finished,
        events.len() <= 4,
{
    lemma_sample_ends(events);
}

proof fn lemma_sample_ends(events: Seq<SampleEvent>)
    requires
        sample_well_run(events),
    ensures
        ({
            let step = sample_after(events);
            match step.state {
                Sample::Pulling => step.command is Some && step.command->0 is Pull && events.len()
                    == 0,
                Sample::TakingBuffer => step.command is Some && step.command->0 is TakeBuffer
                    && events.len() <= 1,
                Sample::Mapping => step.command is Some && step.command->0 is MapBuffer
                    && events.len() <= 2,
                Sample::Reporting => step.command is Some && step.command->0 is Report
                    && events.len() <= 3,
                Sample::Sending => step.command is Some && step.command->0 is Send && events.len()
                    <= 3,
                Sample::Finished(_) => step.command is None && events.len() <= 4,
            }
        }),
    decreases events.len(),
{
    if events.len() > 0 {
        lemma_sample_ends(events.drop_last());
    }
}

/// In which order the pipeline is put together: every element, from source to sink; then, if
/// one is configured, the device of the source as it was given; then the pipeline, to which all
/// elements are added and in which they are linked in that same order; and last the bus.
/// Nothing is printed.
pub proof fn law_pipeline_is_put_together_in_order<E>(config: VideoConfig)
    ensures
        build_after(config, all_done::<E>(0)).command == Some(BuildCommand::Initialize),
        build_after(config, all_done::<E>(1)).command == Some(BuildCommand::Make(Element::Source)),
        build_after(config, all_done::<E>(2)).command == Some(BuildCommand::Make(Element::Convert)),
        build_after(config, all_done::<E>(3)).command == Some(BuildCommand::Make(Element::Encode)),
        build_after(config, all_done::<E>(4)).command == Some(BuildCommand::Make(Element::Pay)),
        build_after(config, all_done::<E>(5)).command == Some(BuildCommand::Make(Element::Sink)),
        config.device matches Some(path) ==> build_after(config, all_done::<E>(6)).command == Some(
            BuildCommand::SetDevice { element: Element::Source, device: path },
        ),
        ({
            let n: nat = if config.device is Some {
                7
            } else {
                6
            };
            let elements = seq![
                Element::Source,
                Element::Convert,
                Element::Encode,
                Element::Pay,
                Element::Sink,
            ];
            &&& build_after(config, all_done::<E>(n)).command == Some(BuildCommand::CreatePipeline)
            &&& build_after(config, all_done::<E>(n + 1)).command matches Some(
                BuildCommand::AddElements(added),
            ) && added@ == elements
            &&& build_after(config, all_done::<E>(n + 2)).command matches Some(
                BuildCommand::LinkElements(linked),
            ) && linked@ == elements
            &&& build_after(config, all_done::<E>(n + 3)).command == Some(BuildCommand::FindBus)
            &&& forall|i: nat|
                i <= n + 3 ==> (#[trigger] build_after(config, all_done::<E>(i))).notices.len() == 0
        }),
{
    let n: nat = if config.device is Some {
        7
    } else {
        6
    };
    assert forall|i: nat| i <= n + 3 implies {
        let step = #[trigger] build_after(config, all_done::<E>(i));
        step.command == Some(build_plan(config)[i as int]) && step.notices.len() == 0
    } by {
        lemma_build_follows_the_plan::<E>(config, i);
    }
    lemma_build_follows_the_plan::<E>(config, 0);
    lemma_build_follows_the_plan::<E>(config, 1);
    lemma_build_follows_the_plan::<E>(config, 2);
    lemma_build_follows_the_plan::<E>(config, 3);
    lemma_build_follows_the_plan::<E>(config, 4);
    lemma_build_follows_the_plan::<E>(config, 5);
    lemma_build_follows_the_plan::<E>(config, 6);
    lemma_build_follows_the_plan::<E>(config, n);
    lemma_build_follows_the_plan::<E>(config, n + 1);
    lemma_build_follows_the_plan::<E>(config, n + 2);
    lemma_build_follows_the_plan::<E>(config, n + 3);
    assert(chain_spec()@ =~= seq![
        Element::Source,
        Element::Convert,
        Element::Encode,
        Element::Pay,
        Element::Sink,
    ]);
}

/// If making, adding or linking elements fails, the building ends there with that error, and
/// nothing is printed.
pub proof fn law_a_failure_is_what_the_building_ends_with<E>(config: VideoConfig, n: nat, err: E)
    requires
        n < build_plan(config).len(),
        ({
            let command = build_after(config, all_done::<E>(n)).command;
            command is Some && (command->0 is Make || command->0 is AddElements
                || command->0 is LinkElements)
        }),
    ensures
        ({
            let step = build_after(config, all_done::<E>(n).push(BuildEvent::Failed(err)));
            &&& step.state == Build::Failed(err)
            &&& step.command is None
            &&& step.notices.len() == 0
        }),
{
    lemma_build_follows_the_plan::<E>(config, n);
    law_build_ends_at_the_first_failure(config, n, err, Seq::empty());
    let events = all_done::<E>(n).push(BuildEvent::Failed(err));
    assert(events + Seq::empty() =~= events);
}

/// Whether the pipeline has a bus decides whether one is watched, and that is printed only if
/// it is; the pipeline is built either way.
pub proof fn law_a_bus_is_watched<E>(config: VideoConfig, bus: bool)
    ensures
        ({
            let n: nat = if config.device is Some {
                10
            } else {
                9
            };
            let step = build_after(config, all_done::<E>(n).push(BuildEvent::Bus(bus)));
            &&& step.state is Built
            &&& bus ==> step.command == Some(BuildCommand::WatchBus) && step.notices == seq![
                Notice::ListeningToPipeline,
            ]
            &&& !bus ==> step.command is None && step.notices.len() == 0
        }),
{
    let n = (build_plan(config).len() - 1) as nat;
    lemma_build_follows_the_plan::<E>(config, n);
    assert(all_done::<E>(n).push(BuildEvent::Bus(bus)).drop_last() =~= all_done::<E>(n));
}

/// What the watch makes of each message: the end of the stream and an error are printed with
/// all that they tell, and end it; a change of state is printed with both states exactly if it
/// is known to be the pipeline's; of anything else nothing comes.
pub proof fn law_what_becomes_of_a_message(message: BusMessage)
    ensures
        watch_spec().command == Some(BusCommand::Next),
        watch_spec().notices.len() == 0,
        ({
            let step = watched_spec(watch_spec().state, BusEvent::Message(message));
            match message {
                BusMessage::Eos(eos) => {
                    &&& step.command is None
                    &&& step.notices == seq![Notice::SourceExhausted(eos), Notice::PipelineStopped]
                },
                BusMessage::Error { element, error } => {
                    &&& step.command is None
                    &&& step.notices == seq![
                        Notice::ElementFailed { element, error },
                        Notice::PipelineStopped,
                    ]
                },
                BusMessage::StateChanged { of_pipeline, from, to } => {
                    &&& step.state == watch_spec().state
                    &&& step.command == Some(BusCommand::Next)
                    &&& of_pipeline == Some(true) ==> step.notices == seq![
                        Notice::PipelineStateChanged { from, to },
                    ]
                    &&& of_pipeline != Some(true) ==> step.notices.len() == 0
                },
                BusMessage::Other => {
                    &&& step.state == watch_spec().state
                    &&& step.command == Some(BusCommand::Next)
                    &&& step.notices.len() == 0
                },
            }
        }),
        ({
            let step = watched_spec(watch_spec().state, BusEvent::Exhausted);
            &&& step.command is None
            &&& step.notices == seq![Notice::PipelineStopped]
        }),
{
}

/// As long as the outcomes are those of the commands given: the sample is pulled, its buffer
/// taken and mapped, and the bytes in it are sent as they are, which is a success. The end of
/// the stream is that there is no sample; a missing buffer and one that cannot be read are
/// reported as such, which is an error. Nothing is printed.
pub proof fn law_what_becomes_of_a_sample(events: Seq<SampleEvent>)
    requires
        sample_well_run(events),
    ensures
        ({
            let step = sample_after(events);
            &&& step.notices.len() == 0
            &&& events.len() == 0 ==> step.command == Some(SampleCommand::Pull)
            &&& events.len() > 0 ==> match events.last() {
                SampleEvent::Pulled(pulled) => {
                    &&& pulled ==> step.command == Some(SampleCommand::TakeBuffer)
                    &&& !pulled ==> step.state == Sample::Finished(Flow::Eos)
                },
                SampleEvent::BufferTaken(taken) => step.command == Some(
                    if taken {
                        SampleCommand::MapBuffer
                    } else {
                        SampleCommand::Report(SampleFailure::NoBuffer)
                    },
                ),
                SampleEvent::Mapped(mapped) => {
                    &&& mapped matches Some(bytes) ==> step.command == Some(
                        SampleCommand::Send(bytes),
                    )
                    &&& mapped is None ==> step.command == Some(
                        SampleCommand::Report(SampleFailure::NotReadable),
                    )
                },
                SampleEvent::Reported => step.state == Sample::Finished(Flow::Error),
                SampleEvent::Sent(_) => step.state == Sample::Finished(Flow::Success),
            }
            &&& step.state is Finished <==> step.command is None
        }),
{
    lemma_sample_ends(events);
    if events.len() > 0 {
        lemma_sample_ends(events.drop_last());
    }
}

/// Once the pipeline is built, or the building has failed, nothing changes any more.
pub proof fn law_the_end_of_the_building_is_final<E>(state: Build<E>, event: BuildEvent<E>)
    requires
        state is Built || state is Failed,
    ensures
        built_spec(state, event).state == state,
        built_spec(state, event).command is None,
        built_spec(state, event).notices.len() == 0,
{
}

/// Once the watch has stopped, nothing changes any more.
pub proof fn law_the_end_of_the_watch_is_final(state: BusWatch, event: BusEvent)
    requires
        state is Stopped,
    ensures
        watched_spec(state, event).state == state,
        watched_spec(state, event).command is None,
        watched_spec(state, event).notices.len() == 0,
{
}

/// An outcome that is not awaited, and so any outcome after the end, changes nothing.
pub proof fn law_unawaited_outcomes_change_nothing(state: Sample, event: SampleEvent)
    requires
        !((state is Pulling && event is Pulled)
            || (state is TakingBuffer && event is BufferTaken)
            || (state is Mapping && event is Mapped)
            || (state is Reporting && event is Reported)
            || (state is Sending && event is Sent)),
    ensures
        sampled_spec(state, event).state == state,
        sampled_spec(state, event).command is None,
        sampled_spec(state, event).notices.len() == 0,
{
}

} // verus!
