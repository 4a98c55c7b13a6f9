//! Bringing everything up: connecting the socket until it succeeds, and the order in which
//! the peer connection and the video come to life.

use vstd::prelude::*;

use crate::config::Config;
use crate::notice::Notice;
use crate::peer::IceConfig;
use crate::socket::SocketConfig;
use crate::step::Step;
#[allow(unused_imports)]
use crate::step::{silent, telling, StepView};
use crate::video::VideoConfig;

verus! {

/// The pause between two attempts to connect the socket, in seconds.
pub const RECONNECT_PAUSE_SECS: u64 = 2;

/// The head start that the socket has over the peer connection, in seconds.
pub const SOCKET_HEAD_START_SECS: u64 = 2;

/// How many payloads, or frames, can wait in a channel between two parts of the program.
pub const CHANNEL_CAPACITY: usize = 1;

/// What is asked for to get the socket connected.
#[derive(Debug, PartialEq, Eq)]
pub enum ConnectCommand {
    Connect(SocketConfig),
    /// Let this many seconds pass.
    Rest(u64),
    /// Start the sending loop on the socket that is now connected.
    Listen,
}

/// What is reported while the socket gets connected.
#[derive(Debug, PartialEq, Eq)]
pub enum ConnectEvent {
    /// Whether the attempt succeeded.
    Attempted(bool),
    Rested,
}

/// How far the socket has come.
#[derive(Debug, PartialEq, Eq)]
pub enum Connect {
    Connecting(SocketConfig),
    Resting(SocketConfig),
    Connected,
}

/// The first attempt, or another one.
pub open spec fn connect_spec(config: SocketConfig) -> StepView<Connect, ConnectCommand> {
    silent(Connect::Connecting(config), Some(ConnectCommand::Connect(config)))
}

/// What a report leads to. One that is not awaited changes nothing.
pub open spec fn connected_spec(state: Connect, event: ConnectEvent) -> StepView<
    Connect,
    ConnectCommand,
> {
    match (state, event) {
        (Connect::Connecting(_), ConnectEvent::Attempted(true)) => silent(
            Connect::Connected,
            Some(ConnectCommand::Listen),
        ),
        (Connect::Connecting(config), ConnectEvent::Attempted(false)) => telling(
            Connect::Resting(config),
            Notice::SocketReconnecting,
            Some(ConnectCommand::Rest(RECONNECT_PAUSE_SECS)),
        ),
        (Connect::Resting(config), ConnectEvent::Rested) => connect_spec(config),
        _ => silent(state, None),
    }
}

impl Connect {
    /// Starts to connect the socket.
    pub fn begin(config: SocketConfig) -> (step: Step<Connect, ConnectCommand>)
        ensures
            step@ == connect_spec(config),
    {
        let attempt = config.clone();
        Step::silent(Connect::Connecting(config), Some(ConnectCommand::Connect(attempt)))
    }

    /// Goes on with a report. One that is not awaited changes nothing.
    pub fn resume(self, event: ConnectEvent) -> (step: Step<Connect, ConnectCommand>)
        ensures
            step@ == connected_spec(self, event),
    {
        match (self, event) {
            (Connect::Connecting(config), ConnectEvent::Attempted(succeeded)) => {
                if succeeded {
                    Step::silent(Connect::Connected, Some(ConnectCommand::Listen))
                } else {
                    Step::telling(
                        Connect::Resting(config),
                        Notice::SocketReconnecting,
                        Some(ConnectCommand::Rest(RECONNECT_PAUSE_SECS)),
                    )
                }
            },
            (Connect::Resting(config), ConnectEvent::Rested) => Connect::begin(config),
            (state, _) => Step::silent(state, None),
        }
    }
}

/// What is asked for to bring everything up.
#[derive(Debug, PartialEq, Eq)]
pub enum SetupCommand {
    /// Connect the socket on a thread of its own.
    SpawnSocket(SocketConfig),
    /// Let this many seconds pass.
    Rest(u64),
    CreatePeer(IceConfig),
    InstallCallbacks,
    StartListener,
    StartStream,
    CreateVideo(VideoConfig),
    /// Let the frames of the video flow into the stream.
    AttachVideo,
    /// Wait until the begin message has come.
    AwaitBegin,
    StartVideo,
    /// Wait until the listening loop and the stream have come to their ends.
    Join,
}

/// What became of a command.
#[derive(Debug, PartialEq, Eq)]
pub enum SetupEvent<E> {
    Done,
    Failed(E),
}

/// How far the program has come; the parts of the configuration are kept until needed.
#[derive(Debug, PartialEq, Eq)]
pub enum Setup<E> {
    SpawningSocket(IceConfig, VideoConfig),
    Resting(IceConfig, VideoConfig),
    CreatingPeer(VideoConfig),
    InstallingCallbacks(VideoConfig),
    StartingListener(VideoConfig),
    StartingStream(VideoConfig),
    CreatingVideo,
    AttachingVideo,
    AwaitingBegin,
    StartingVideo,
    Joining,
    Finished,
    /// Ended by this error.
    Aborted(E),
}

impl<E> Setup<E> {
    /// Whether what is being done can fail.
    pub open spec fn fallible(self) -> bool {
        match self {
            Setup::CreatingPeer(_)
            | Setup::StartingStream(_)
            | Setup::CreatingVideo
            | Setup::AttachingVideo
            | Setup::StartingVideo => true,
            _ => false,
        }
    }
}

/// How the program starts.
pub open spec fn setup_spec<E>(config: Config) -> StepView<Setup<E>, SetupCommand> {
    silent(
        Setup::SpawningSocket(config.web_rtc, config.video),
        Some(SetupCommand::SpawnSocket(config.socket)),
    )
}

/// What comes after a command that was carried out.
pub open spec fn proceed_spec<E>(state: Setup<E>) -> StepView<Setup<E>, SetupCommand> {
    match state {
        Setup::SpawningSocket(ice, video) => silent(
            Setup::Resting(ice, video),
            Some(SetupCommand::Rest(SOCKET_HEAD_START_SECS)),
        ),
        Setup::Resting(ice, video) => silent(
            Setup::CreatingPeer(video),
            Some(SetupCommand::CreatePeer(ice)),
        ),
        Setup::CreatingPeer(video) => silent(
            Setup::InstallingCallbacks(video),
            Some(SetupCommand::InstallCallbacks),
        ),
        Setup::InstallingCallbacks(video) => silent(
            Setup::StartingListener(video),
            Some(SetupCommand::StartListener),
        ),
        Setup::StartingListener(video) => silent(
            Setup::StartingStream(video),
            Some(SetupCommand::StartStream),
        ),
        Setup::StartingStream(video) => silent(
            Setup::CreatingVideo,
            Some(SetupCommand::CreateVideo(video)),
        ),
        Setup::CreatingVideo => silent(Setup::AttachingVideo, Some(SetupCommand::AttachVideo)),
        Setup::AttachingVideo => silent(Setup::AwaitingBegin, Some(SetupCommand::AwaitBegin)),
        Setup::AwaitingBegin => telling(
            Setup::StartingVideo,
            Notice::StartingVideo,
            Some(SetupCommand::StartVideo),
        ),
        Setup::StartingVideo => silent(Setup::Joining, Some(SetupCommand::Join)),
        Setup::Joining => silent(Setup::Finished, None),
        Setup::Finished | Setup::Aborted(_) => silent(state, None),
    }
}

/// What an outcome leads to. The first failure ends the program with its error; an outcome
/// that a command cannot have changes nothing.
pub open spec fn settle_spec<E>(state: Setup<E>, event: SetupEvent<E>) -> StepView<
    Setup<E>,
    SetupCommand,
> {
    match event {
        SetupEvent::Done => proceed_spec(state),
        SetupEvent::Failed(err) => if state.fallible() {
            silent(Setup::Aborted(err), None)
        } else {
            silent(state, None)
        },
    }
}

impl<E> Setup<E> {
    /// Starts the program.
    pub fn begin(config: Config) -> (step: Step<Setup<E>, SetupCommand>)
        ensures
            step@ == setup_spec::<E>(config),
    {
        Step::silent(
            Setup::SpawningSocket(config.web_rtc, config.video),
            Some(SetupCommand::SpawnSocket(config.socket)),
        )
    }

    /// Goes on with the outcome of the last command. An outcome that it cannot have changes
    /// nothing.
    pub fn resume(self, event: SetupEvent<E>) -> (step: Step<Setup<E>, SetupCommand>)
        ensures
            step@ == settle_spec(self, event),
    {
        match event {
            SetupEvent::Done => self.proceed(),
            SetupEvent::Failed(err) => match self {
                Setup::CreatingPeer(_)
                | Setup::StartingStream(_)
                | Setup::CreatingVideo
                | Setup::AttachingVideo
                | Setup::StartingVideo => Step::silent(Setup::Aborted(err), None),
                state => Step::silent(state, None),
            },
        }
    }

    fn proceed(self) -> (step: Step<Setup<E>, SetupCommand>)
        ensures
            step@ == proceed_spec(self),
    {
        match self {
            Setup::SpawningSocket(ice, video) => Step::silent(
                Setup::Resting(ice, video),
                Some(SetupCommand::Rest(SOCKET_HEAD_START_SECS)),
            ),
            Setup::Resting(ice, video) => Step::silent(
                Setup::CreatingPeer(video),
                Some(SetupCommand::CreatePeer(ice)),
            ),
            Setup::CreatingPeer(video) => Step::silent(
                Setup::InstallingCallbacks(video),
                Some(SetupCommand::InstallCallbacks),
            ),
            Setup::InstallingCallbacks(video) => Step::silent(
                Setup::StartingListener(video),
                Some(SetupCommand::StartListener),
            ),
            Setup::StartingListener(video) => Step::silent(
                Setup::StartingStream(video),
                Some(SetupCommand::StartStream),
            ),
            Setup::StartingStream(video) => Step::silent(
                Setup::CreatingVideo,
                Some(SetupCommand::CreateVideo(video)),
            ),
            Setup::CreatingVideo => Step::silent(
                Setup::AttachingVideo,
                Some(SetupCommand::AttachVideo),
            ),
            Setup::AttachingVideo => Step::silent(
                Setup::AwaitingBegin,
                Some(SetupCommand::AwaitBegin),
            ),
            Setup::AwaitingBegin => Step::telling(
                Setup::StartingVideo,
                Notice::StartingVideo,
                Some(SetupCommand::StartVideo),
            ),
            Setup::StartingVideo => Step::silent(Setup::Joining, Some(SetupCommand::Join)),
            Setup::Joining => Step::silent(Setup::Finished, None),
            Setup::Finished => Step::silent(Setup::Finished, None),
            Setup::Aborted(err) => Step::silent(Setup::Aborted(err), None),
        }
    }

    /// What the program ends with, once it has ended: the error that ended it, if one did.
    pub fn outcome(self) -> (outcome: Option<Result<(), E>>)
        ensures
            match self {
                Setup::Finished => outcome matches Some(Ok(_)),
                Setup::Aborted(err) => outcome == Some(Err::<(), E>(err)),
                _ => outcome is None,
            },
    {
        match self {
            Setup::Finished => Some(Ok(())),
            Setup::Aborted(err) => Some(Err(err)),
            _ => None,
        }
    }
}

/// Where the socket stands after the given reports.
pub open spec fn connect_after(config: SocketConfig, events: Seq<ConnectEvent>) -> StepView<
    Connect,
    ConnectCommand,
>
    decreases events.len(),
{
    if events.len() == 0 {
        connect_spec(config)
    } else {
        connected_spec(connect_after(config, events.drop_last()).state, events.last())
    }
}

/// The reports of `n` attempts that failed, with the pauses after them.
pub open spec fn failures(n: nat) -> Seq<ConnectEvent>
    decreases n,
{
    if n == 0 {
        Seq::empty()
    } else {
        failures((n - 1) as nat).push(ConnectEvent::Attempted(false)).push(ConnectEvent::Rested)
    }
}

/// However many attempts have failed, the socket is tried again with the same configuration,
/// and the first attempt that succeeds leads on to the sending loop.
pub proof fn law_socket_is_tried_until_connected(config: SocketConfig, n: nat)
    ensures
        connect_after(config, failures(n)) == connect_spec(config),
        connect_after(config, failures(n).push(ConnectEvent::Attempted(false))) == telling(
            Connect::Resting(config),
            Notice::SocketReconnecting,
            Some(ConnectCommand::Rest(RECONNECT_PAUSE_SECS)),
        ),
        connect_after(config, failures(n).push(ConnectEvent::Attempted(true))) == silent(
            Connect::Connected,
            Some(ConnectCommand::Listen),
        ),
    decreases n,
{
    if n > 0 {
        let before = failures((n - 1) as nat);
        law_socket_is_tried_until_connected(config, (n - 1) as nat);
        assert(failures(n).drop_last() =~= before.push(ConnectEvent::Attempted(false)));
    }
    assert(failures(n).push(ConnectEvent::Attempted(false)).drop_last() =~= failures(n));
    assert(failures(n).push(ConnectEvent::Attempted(true)).drop_last() =~= failures(n));
}

/// Where the program stands after the given outcomes.
pub open spec fn setup_after<E>(config: Config, events: Seq<SetupEvent<E>>) -> StepView<
    Setup<E>,
    SetupCommand,
>
    decreases events.len(),
{
    if events.len() == 0 {
        setup_spec(config)
    } else {
        settle_spec(setup_after(config, events.drop_last()).state, events.last())
    }
}

/// The commands that bring everything up when nothing fails.
pub open spec fn setup_plan(config: Config) -> Seq<SetupCommand> {
    seq![
        SetupCommand::SpawnSocket(config.socket),
        SetupCommand::Rest(SOCKET_HEAD_START_SECS),
        SetupCommand::CreatePeer(config.web_rtc),
        SetupCommand::InstallCallbacks,
        SetupCommand::StartListener,
        SetupCommand::StartStream,
        SetupCommand::CreateVideo(config.video),
        SetupCommand::AttachVideo,
        SetupCommand::AwaitBegin,
        SetupCommand::StartVideo,
        SetupCommand::Join,
    ]
}

/// `n` outcomes without a failure.
pub open spec fn all_done<E>(n: nat) -> Seq<SetupEvent<E>> {
    Seq::new(n, |i: int| SetupEvent::Done)
}

/// Where the program stands while the command at place `n` of the plan is carried out.
spec fn setup_stage<E>(config: Config, n: nat) -> Setup<E> {
    let (ice, video) = (config.web_rtc, config.video);
    if n == 0 {
        Setup::SpawningSocket(ice, video)
    } else if n == 1 {
        Setup::Resting(ice, video)
    } else if n == 2 {
        Setup::CreatingPeer(video)
    } else if n == 3 {
        Setup::InstallingCallbacks(video)
    } else if n == 4 {
        Setup::StartingListener(video)
    } else if n == 5 {
        Setup::StartingStream(video)
    } else if n == 6 {
        Setup::CreatingVideo
    } else if n == 7 {
        Setup::AttachingVideo
    } else if n == 8 {
        Setup::AwaitingBegin
    } else if n == 9 {
        Setup::StartingVideo
    } else if n == 10 {
        Setup::Joining
    } else {
        Setup::Finished
    }
}

proof fn lemma_setup_stage<E>(config: Config, n: nat)
    requires
        n <= setup_plan(config).len(),
    ensures
        setup_after(config, all_done::<E>(n)).state == setup_stage::<E>(config, n),
        setup_after(config, all_done::<E>(n)).command == (if n < setup_plan(config).len() {
            Some(setup_plan(config)[n as int])
        } else {
            None
        }),
    decreases n,
{
    if n > 0 {
        lemma_setup_stage::<E>(config, (n - 1) as nat);
        assert(all_done::<E>(n).drop_last() =~= all_done::<E>((n - 1) as nat));
        assert(all_done::<E>(n).last() == SetupEvent::<E>::Done);
    }
}

/// As long as nothing fails, everything comes up as planned, each part with its own part of
/// the configuration, and the program is finished when the plan is.
pub proof fn law_setup_follows_the_plan<E>(config: Config, n: nat)
    requires
        n <= setup_plan(config).len(),
    ensures
        n < setup_plan(config).len() ==> setup_after(config, all_done::<E>(n)).command == Some(
            setup_plan(config)[n as int],
        ),
        n == setup_plan(config).len() ==> {
            &&& setup_after(config, all_done::<E>(n)).state is Finished
            &&& setup_after(config, all_done::<E>(n)).command is None
        },
{
    lemma_setup_stage::<E>(config, n);
}

/// The video is started only once the begin message has come, and that is also when it is
/// printed.
pub proof fn law_video_waits_for_begin<E>(state: Setup<E>, event: SetupEvent<E>)
    ensures
        settle_spec(state, event).command == Some(SetupCommand::StartVideo) <==> state
            is AwaitingBegin && event is Done,
        settle_spec(state, event).notices == (if state is AwaitingBegin && event is Done {
            seq![Notice::StartingVideo]
        } else {
            Seq::empty()
        }),
{
}

/// The commands that can fail.
pub open spec fn can_fail(command: SetupCommand) -> bool {
    match command {
        SetupCommand::CreatePeer(_)
        | SetupCommand::StartStream
        | SetupCommand::CreateVideo(_)
        | SetupCommand::AttachVideo
        | SetupCommand::StartVideo => true,
        _ => false,
    }
}

/// The first failure ends the program for good, with its own error: whatever is reported
/// afterwards, nothing more is done and the error stays the same.
pub proof fn law_setup_ends_at_the_first_failure<E>(
    config: Config,
    n: nat,
    err: E,
    later: Seq<SetupEvent<E>>,
)
    requires
        n < setup_plan(config).len(),
        can_fail(setup_plan(config)[n as int]),
    ensures
        setup_after(config, all_done::<E>(n).push(SetupEvent::Failed(err)) + later) == silent::<
            Setup<E>,
            SetupCommand,
        >(Setup::Aborted(err), None),
    decreases later.len(),
{
    let events = all_done::<E>(n).push(SetupEvent::Failed(err)) + later;
    if later.len() == 0 {
        lemma_setup_stage::<E>(config, n);
        assert(events.drop_last() =~= all_done::<E>(n));
    } else {
        law_setup_ends_at_the_first_failure(config, n, err, later.drop_last());
        assert(events.drop_last() =~= all_done::<E>(n).push(SetupEvent::Failed(err))
            + later.drop_last());
    }
}

/// Whatever number of attempts has failed before, the next one is made with the configuration
/// that was given; if it fails too, that is printed and a pause is made; if it succeeds, the
/// sending loop is started and nothing is printed.
pub proof fn law_each_attempt_is_with_the_given_configuration(config: SocketConfig, n: nat)
    ensures
        connect_after(config, failures(n)).command == Some(ConnectCommand::Connect(config)),
        connect_after(config, failures(n)).notices.len() == 0,
        ({
            let failed = connect_after(config, failures(n).push(ConnectEvent::Attempted(false)));
            &&& failed.command == Some(ConnectCommand::Rest(RECONNECT_PAUSE_SECS))
            &&& failed.notices == seq![Notice::SocketReconnecting]
        }),
        ({
            let connected = connect_after(config, failures(n).push(ConnectEvent::Attempted(true)));
            &&& connected.command == Some(ConnectCommand::Listen)
            &&& connected.notices.len() == 0
            &&& connected.state is Connected
        }),
{
    law_socket_is_tried_until_connected(config, n);
}

/// In which order everything comes up, each part with its own part of the configuration as it
/// was given; the start of the video, and nothing else, is printed.
pub proof fn law_everything_comes_up_in_order<E>(config: Config)
    ensures
        setup_after(config, all_done::<E>(0)).command == Some(
            SetupCommand::SpawnSocket(config.socket),
        ),
        setup_after(config, all_done::<E>(1)).command == Some(
            SetupCommand::Rest(SOCKET_HEAD_START_SECS),
        ),
        setup_after(config, all_done::<E>(2)).command == Some(
            SetupCommand::CreatePeer(config.web_rtc),
        ),
        setup_after(config, all_done::<E>(3)).command == Some(SetupCommand::InstallCallbacks),
        setup_after(config, all_done::<E>(4)).command == Some(SetupCommand::StartListener),
        setup_after(config, all_done::<E>(5)).command == Some(SetupCommand::StartStream),
        setup_after(config, all_done::<E>(6)).command == Some(
            SetupCommand::CreateVideo(config.video),
        ),
        setup_after(config, all_done::<E>(7)).command == Some(SetupCommand::AttachVideo),
        setup_after(config, all_done::<E>(8)).command == Some(SetupCommand::AwaitBegin),
        setup_after(config, all_done::<E>(9)).command == Some(SetupCommand::StartVideo),
        setup_after(config, all_done::<E>(10)).command == Some(SetupCommand::Join),
        setup_after(config, all_done::<E>(11)).command is None,
        setup_after(config, all_done::<E>(11)).state is Finished,
        forall|n: nat|
            n <= 11 ==> (#[trigger] setup_after(config, all_done::<E>(n))).notices == (if n == 9 {
                seq![Notice::StartingVideo]
            } else {
                Seq::empty()
            }),
{
    assert forall|n: nat| n <= 11 implies {
        let step = #[trigger] setup_after(config, all_done::<E>(n));
        &&& step.command == (if n < 11 {
            Some(setup_plan(config)[n as int])
        } else {
            None
        })
        &&& step.state == setup_stage::<E>(config, n)
        &&& step.notices == (if n == 9 {
            seq![Notice::StartingVideo]
        } else {
            Seq::empty()
        })
    } by {
        lemma_setup_stage::<E>(config, n);
        if n > 0 {
            let before = (n - 1) as nat;
            lemma_setup_stage::<E>(config, before);
            assert(all_done::<E>(n).drop_last() =~= all_done::<E>(before));
            assert(all_done::<E>(n).last() == SetupEvent::<E>::Done);
            law_video_waits_for_begin(setup_stage::<E>(config, before), SetupEvent::<E>::Done);
        }
    }
    let last = setup_after(config, all_done::<E>(11));
    assert(last.command is None && last.state is Finished);
}

/// If making the peer, starting the stream, or making, attaching or starting the video fails,
/// the program ends there with that error.
pub proof fn law_a_failure_is_what_the_program_ends_with<E>(config: Config, n: nat, err: E)
    requires
        n <= 10,
        ({
            let command = setup_after(config, all_done::<E>(n)).command;
            command is Some && (command->0 is CreatePeer || command->0 is StartStream
                || command->0 is CreateVideo || command->0 is AttachVideo
                || command->0 is StartVideo)
        }),
    ensures
        ({
            let step = setup_after(config, all_done::<E>(n).push(SetupEvent::Failed(err)));
            &&& step.state == Setup::Aborted(err)
            &&& step.command is None
            &&& step.notices.len() == 0
        }),
{
    lemma_setup_stage::<E>(config, n);
    law_setup_ends_at_the_first_failure(config, n, err, Seq::empty());
    let events = all_done::<E>(n).push(SetupEvent::Failed(err));
    assert(events + Seq::empty() =~= events);
}

/// A report that is not awaited, and so any report once the socket is connected, changes
/// nothing.
pub proof fn law_unawaited_reports_change_nothing(state: Connect, event: ConnectEvent)
    requires
        !((state is Connecting && event is Attempted)
            || (state is Resting && event is Rested)),
    ensures
        connected_spec(state, event).state == state,
        connected_spec(state, event).command is None,
        connected_spec(state, event).notices.len() == 0,
{
}

/// Once the program has ended, well or with an error, nothing changes any more.
pub proof fn law_the_end_of_the_program_is_final<E>(state: Setup<E>, event: SetupEvent<E>)
    requires
        state is Finished || state is Aborted,
    ensures
        settle_spec(state, event).state == state,
        settle_spec(state, event).command is None,
        settle_spec(state, event).notices.len() == 0,
{
}

} // verus!
