use tas_rust::notice::Notice;
use tas_rust::setup::{
    Connect, ConnectCommand, ConnectEvent, Setup, SetupCommand, SetupEvent, CHANNEL_CAPACITY,
};
use tas_rust::socket::SocketConfig;
use tas_rust::video::{
    chain, check_sink, pipeline_name, Build, BuildCommand, BuildEvent, BusCommand, BusEvent, BusMessage,
    BusWatch, Element, Flow, Sample, SampleCommand, SampleEvent, SampleFailure, VideoConfig,
};
use tas_rust::Config;

fn config() -> Config {
    Config::with_video_source("/dev/video0".to_string())
}

#[test]
fn socket_is_tried_until_it_connects() {
    let mut step = Connect::begin(SocketConfig::default());
    for _ in 0..3 {
        assert_eq!(step.command, Some(ConnectCommand::Connect(SocketConfig::default())));
        step = step.state.resume(ConnectEvent::Attempted(false));
        assert_eq!(step.notices, vec![Notice::SocketReconnecting]);
        assert_eq!(step.command, Some(ConnectCommand::Rest(2)));
        step = step.state.resume(ConnectEvent::Rested);
    }
    assert_eq!(step.command, Some(ConnectCommand::Connect(SocketConfig::default())));
    let step = step.state.resume(ConnectEvent::Attempted(true));
    assert_eq!(step.notices, vec![]);
    assert_eq!(step.command, Some(ConnectCommand::Listen));
    assert_eq!(step.state, Connect::Connected);
}

#[test]
fn everything_comes_up_in_order() {
    let plan = vec![
        SetupCommand::SpawnSocket(config().socket),
        SetupCommand::Rest(2),
        SetupCommand::CreatePeer(config().web_rtc),
        SetupCommand::InstallCallbacks,
        SetupCommand::StartListener,
        SetupCommand::StartStream,
        SetupCommand::CreateVideo(config().video),
        SetupCommand::AttachVideo,
        SetupCommand::AwaitBegin,
        SetupCommand::StartVideo,
        SetupCommand::Join,
    ];
    let mut step = Setup::<String>::begin(config());
    for command in plan {
        if command == SetupCommand::StartVideo {
            assert_eq!(step.notices, vec![Notice::StartingVideo]);
        } else {
            assert_eq!(step.notices, vec![]);
        }
        assert_eq!(step.command, Some(command));
        step = step.state.resume(SetupEvent::Done);
    }
    assert_eq!(step.command, None);
    assert_eq!(step.state, Setup::Finished);
    assert_eq!(step.state.outcome(), Some(Ok(())));
}

/// Where the program stands after `n` commands that were carried out.
fn after(n: usize) -> Setup<String> {
    let mut state = Setup::begin(config()).state;
    for _ in 0..n {
        state = state.resume(SetupEvent::Done).state;
    }
    state
}

#[test]
fn failures_abort_where_they_can_happen() {
    for n in 0..11 {
        let step = after(n).resume(SetupEvent::Failed("boom".to_string()));
        assert_eq!(step.command, None);
        assert_eq!(step.notices, vec![]);
        if vec![2, 5, 6, 7, 9].contains(&n) {
            assert_eq!(step.state, Setup::Aborted("boom".to_string()));
        } else {
            assert_eq!(step.state, after(n));
            assert_eq!(step.state.outcome(), None);
        }
    }
}

#[test]
fn first_failure_gives_the_error() {
    let step = after(5).resume(SetupEvent::Failed("first".to_string()));
    let step = step.state.resume(SetupEvent::Failed("second".to_string()));
    let step = step.state.resume(SetupEvent::Done);
    assert_eq!(step.command, None);
    assert_eq!(step.state.outcome(), Some(Err("first".to_string())));
}

#[test]
fn channels_hold_one_item() {
    assert_eq!(CHANNEL_CAPACITY, 1);
}

#[test]
fn elements_have_their_factories_and_names() {
    let mut names = vec![];
    let mut next = Some(Element::Source);
    while let Some(element) = next {
        names.push((element.factory(), element.name()));
        next = element.next();
    }
    assert_eq!(
        names,
        vec![
            ("v4l2src", "source"),
            ("videoconvert", "videoconvert"),
            ("vp8enc", "vp8enc"),
            ("rtpvp8pay", "rtp"),
            ("appsink", "udp sink"),
        ]
    );
    assert_eq!(
        chain(),
        [Element::Source, Element::Convert, Element::Encode, Element::Pay, Element::Sink]
    );
    assert_eq!(pipeline_name(), "live-pipe");
}

fn build(device: Option<String>) -> (Vec<BuildCommand>, Build<String>) {
    let mut commands = vec![];
    let mut step = Build::begin(VideoConfig { device });
    while let Some(command) = step.command {
        if command == BuildCommand::FindBus {
            commands.push(command);
            return (commands, step.state);
        }
        commands.push(command);
        step = step.state.resume(BuildEvent::Done);
        assert_eq!(step.notices, vec![]);
    }
    panic!("no bus was looked for");
}

#[test]
fn pipeline_is_built_in_order() {
    let head = vec![
        BuildCommand::Initialize,
        BuildCommand::Make(Element::Source),
        BuildCommand::Make(Element::Convert),
        BuildCommand::Make(Element::Encode),
        BuildCommand::Make(Element::Pay),
        BuildCommand::Make(Element::Sink),
    ];
    let (commands, state) = build(Some("/dev/video1".to_string()));
    assert_eq!(commands.len(), 11);
    assert_eq!(commands[..6], head[..]);
    assert_eq!(
        commands[6],
        BuildCommand::SetDevice {
            element: Element::Source,
            device: "/dev/video1".to_string(),
        }
    );
    assert_eq!(
        commands[7..],
        vec![
            BuildCommand::CreatePipeline,
            BuildCommand::AddElements(chain()),
            BuildCommand::LinkElements(chain()),
            BuildCommand::FindBus,
        ][..]
    );
    let step = state.resume(BuildEvent::Bus(true));
    assert_eq!(step.notices, vec![Notice::ListeningToPipeline]);
    assert_eq!(step.command, Some(BuildCommand::WatchBus));
    assert_eq!(step.state, Build::Built);
    assert_eq!(step.state.outcome(), Some(Ok(Element::Sink)));

    let (commands, state) = build(None);
    assert_eq!(commands.len(), 10);
    assert_eq!(commands[..6], head[..]);
    assert_eq!(commands[6], BuildCommand::CreatePipeline);
    let step = state.resume(BuildEvent::Bus(false));
    assert_eq!(step.notices, vec![]);
    assert_eq!(step.command, None);
    assert_eq!(step.state, Build::Built);
}

#[test]
fn building_ends_at_the_first_failure() {
    for state in vec![
        Build::Making(Element::Encode, None),
        Build::Adding,
        Build::Linking,
    ] {
        let step = state.resume(BuildEvent::Failed("first".to_string()));
        assert_eq!(step.state, Build::Failed("first".to_string()));
        assert_eq!(step.command, None);
        let step = step.state.resume(BuildEvent::Failed("second".to_string()));
        let step = step.state.resume(BuildEvent::Done);
        assert_eq!(step.command, None);
        assert_eq!(step.state.outcome(), Some(Err("first".to_string())));
    }
    let step = Build::SettingDevice.resume(BuildEvent::Failed("boom".to_string()));
    assert_eq!(step.state, Build::SettingDevice);
    assert_eq!(step.state.outcome(), None);
}

#[test]
fn bus_is_watched_until_the_end() {
    let changed = |of_pipeline: Option<bool>| {
        BusEvent::Message(BusMessage::StateChanged {
            of_pipeline,
            from: "Null".to_string(),
            to: "Ready".to_string(),
        })
    };
    let step = BusWatch::start();
    assert_eq!(step.command, Some(BusCommand::Next));
    let step = step.state.resume(changed(Some(true)));
    assert_eq!(
        step.notices,
        vec![Notice::PipelineStateChanged { from: "Null".to_string(), to: "Ready".to_string() }]
    );
    let step = step.state.resume(changed(Some(false)));
    assert_eq!(step.notices, vec![]);
    let step = step.state.resume(changed(None));
    assert_eq!(step.notices, vec![]);
    let step = step.state.resume(BusEvent::Message(BusMessage::Other));
    assert_eq!(step.notices, vec![]);
    assert_eq!(step.command, Some(BusCommand::Next));
    let step = step.state.resume(BusEvent::Message(BusMessage::Eos("Eos".to_string())));
    assert_eq!(
        step.notices,
        vec![Notice::SourceExhausted("Eos".to_string()), Notice::PipelineStopped]
    );
    assert_eq!(step.command, None);
    let step = step.state.resume(BusEvent::Exhausted);
    assert_eq!(step.notices, vec![]);
}

#[test]
fn bus_watch_ends_on_errors_and_without_messages() {
    let step = BusWatch::Listening.resume(BusEvent::Message(BusMessage::Error {
        element: "None".to_string(),
        error: "boom".to_string(),
    }));
    assert_eq!(
        step.notices,
        vec![
            Notice::ElementFailed { element: "None".to_string(), error: "boom".to_string() },
            Notice::PipelineStopped,
        ]
    );
    assert_eq!(step.state, BusWatch::Stopped);
    let step = BusWatch::Listening.resume(BusEvent::Exhausted);
    assert_eq!(step.notices, vec![Notice::PipelineStopped]);
    assert_eq!(step.state, BusWatch::Stopped);
}

#[test]
fn only_an_app_sink_will_do() {
    assert_eq!(check_sink(true), Ok(()));
    assert_eq!(check_sink(false), Err("Cast to app sink failed".to_string()));
}

#[test]
fn readable_sample_is_sent() {
    for taken in vec![true, false] {
        let step = Sample::begin();
        assert_eq!(step.command, Some(SampleCommand::Pull));
        let step = step.state.resume(SampleEvent::Pulled(true));
        assert_eq!(step.command, Some(SampleCommand::TakeBuffer));
        let step = step.state.resume(SampleEvent::BufferTaken(true));
        assert_eq!(step.command, Some(SampleCommand::MapBuffer));
        let step = step.state.resume(SampleEvent::Mapped(Some(vec![1, 2, 3])));
        assert_eq!(step.command, Some(SampleCommand::Send(vec![1, 2, 3])));
        let step = step.state.resume(SampleEvent::Sent(taken));
        assert_eq!(step.state, Sample::Finished(Flow::Success));
        assert_eq!(step.command, None);
    }
}

#[test]
fn broken_samples_are_reported() {
    let step = Sample::Pulling.resume(SampleEvent::Pulled(false));
    assert_eq!(step.state, Sample::Finished(Flow::Eos));
    let step = Sample::TakingBuffer.resume(SampleEvent::BufferTaken(false));
    assert_eq!(step.command, Some(SampleCommand::Report(SampleFailure::NoBuffer)));
    let step = step.state.resume(SampleEvent::Reported);
    assert_eq!(step.state, Sample::Finished(Flow::Error));
    let step = Sample::Mapping.resume(SampleEvent::Mapped(None));
    assert_eq!(step.command, Some(SampleCommand::Report(SampleFailure::NotReadable)));
    assert_eq!(SampleFailure::NoBuffer.message(), "Failed to get buffer from appsink");
    assert_eq!(SampleFailure::NotReadable.message(), "Failed to map buffer readable");
}
