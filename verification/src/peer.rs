//! What a peer connection is made from: its ICE servers, the WebRTC API with its codecs and
//! interceptors, and the track that carries the video.

use vstd::prelude::*;
use webrtc::api::interceptor_registry::register_default_interceptors;
use webrtc::api::media_engine::{MediaEngine, MIME_TYPE_VP8};
use webrtc::api::{APIBuilder, API};
use webrtc::interceptor::registry::Registry;
use webrtc::rtp_transceiver::rtp_codec::RTCRtpCodecCapability;
use webrtc::track::track_local::track_local_static_rtp::TrackLocalStaticRTP;

verus! {

#[verifier::external_type_specification]
#[verifier::external_body]
pub struct ExMediaEngine(MediaEngine);

#[verifier::external_type_specification]
#[verifier::external_body]
pub struct ExRegistry(Registry);

#[verifier::external_type_specification]
#[verifier::external_body]
pub struct ExApi(API);

#[verifier::external_type_specification]
#[verifier::external_body]
pub struct ExTrackLocalStaticRtp(TrackLocalStaticRTP);

#[verifier::external_type_specification]
#[verifier::external_body]
pub struct ExError(webrtc::Error);

/// The ICE servers of the peer connection and the credentials for them.
#[derive(Debug, PartialEq, Eq)]
pub struct IceConfig {
    pub urls: Vec<String>,
    pub username: Option<String>,
    pub credential: Option<String>,
}

/// The mathematical content of an [`IceConfig`].
#[verifier::ext_equal]
pub struct IceConfigView {
    pub urls: Seq<Seq<char>>,
    pub username: Option<Seq<char>>,
    pub credential: Option<Seq<char>>,
}

/// The text in an optional string.
pub open spec fn text_of(string: Option<String>) -> Option<Seq<char>> {
    match string {
        Some(string) => Some(string@),
        None => None,
    }
}

impl View for IceConfig {
    type V = IceConfigView;

    open spec fn view(&self) -> IceConfigView {
        IceConfigView {
            urls: self.urls@.map_values(|url: String| url@),
            username: text_of(self.username),
            credential: text_of(self.credential),
        }
    }
}

impl Clone for IceConfig {
    fn clone(&self) -> (copy: Self)
        ensures
            copy@ == self@,
            copy.urls@ == self.urls@,
            copy.username == self.username,
            copy.credential == self.credential,
    {
        let copy = IceConfig {
            urls: self.urls.clone(),
            username: self.username.clone(),
            credential: self.credential.clone(),
        };
        assert(copy@.urls =~= self@.urls);
        copy
    }
}

/// The TURN server on this machine, with test credentials.
pub open spec fn default_ice_config() -> IceConfigView {
    IceConfigView {
        urls: seq!["turn:localhost:5450"@],
        username: Some("test"@),
        credential: Some("test"@),
    }
}

impl Default for IceConfig {
    fn default() -> (config: Self)
        ensures
            config@ == default_ice_config(),
            config.urls@.len() == 1,
            config.urls@[0]@ == "turn:localhost:5450"@,
            config.username matches Some(username) && username@ == "test"@,
            config.credential matches Some(credential) && credential@ == "test"@,
    {
        let config = IceConfig {
            urls: vec!["turn:localhost:5450".to_string()],
            username: Some("test".to_string()),
            credential: Some("test".to_string()),
        };
        assert(config@.urls =~= seq!["turn:localhost:5450"@]);
        config
    }
}

/// What kind of credential an ICE server takes.
#[derive(Clone, Copy, Debug, PartialEq, Eq, Structural)]
pub enum CredentialType {
    Unspecified,
    Password,
    Oauth,
}

/// One entry in the connection's list of ICE servers.
#[derive(Debug, PartialEq, Eq)]
pub struct IceServer {
    pub urls: Vec<String>,
    pub username: String,
    pub credential: String,
    pub credential_type: CredentialType,
}

/// The text in an optional string, or that of the test credentials.
pub open spec fn or_test(string: Option<String>) -> Seq<char> {
    match string {
        Some(string) => string@,
        None => "test"@,
    }
}

impl IceConfig {
    /// The ICE server of the connection: all the URLs, and the credentials, a password among
    /// them; where one is not configured, the test credential stands in for it.
    pub fn ice_server(self) -> (server: IceServer)
        ensures
            server.urls == self.urls,
            server.username@ == or_test(self.username),
            server.credential@ == or_test(self.credential),
            server.credential_type == CredentialType::Password,
            self.username matches Some(username) ==> server.username@ == username@,
            self.username is None ==> server.username@ == "test"@,
            self.credential matches Some(credential) ==> server.credential@ == credential@,
            self.credential is None ==> server.credential@ == "test"@,
    {
        IceServer {
            urls: self.urls,
            username: self.username.unwrap_or("test".to_string()),
            credential: self.credential.unwrap_or("test".to_string()),
            credential_type: CredentialType::Password,
        }
    }
}

/// Where a credential is configured it is used as it is, and only where none is, the test
/// credential stands in for it; so two configurations lead to the same credential exactly if
/// they agree after that.
pub proof fn law_configured_credentials_are_used(one: Option<String>, other: Option<String>)
    ensures
        one matches Some(credential) ==> or_test(one) == credential@,
        one is None ==> or_test(one) == "test"@,
        one is Some && other is Some ==> (or_test(one) == or_test(other) <==> text_of(one)
            == text_of(other)),
        text_of(one) matches Some(text) ==> or_test(one) == text,
{
}

/// Nothing that a configuration holds is lost in its mathematical content.
pub proof fn law_content_is_the_whole_configuration(config: IceConfig)
    ensures
        config@.urls.len() == config.urls@.len(),
        forall|i: int|
            0 <= i < config.urls@.len() ==> #[trigger] config@.urls[i] == config.urls@[i]@,
        config.username matches Some(username) ==> config@.username == Some(username@),
        config.username is None ==> config@.username is None,
        config.credential matches Some(credential) ==> config@.credential == Some(credential@),
        config.credential is None ==> config@.credential is None,
{
}

/// What the peer connection is configured with.
#[derive(Debug, PartialEq, Eq)]
pub struct PeerConfiguration {
    pub ice_servers: Vec<IceServer>,
}

impl IceConfig {
    /// The configuration of the peer connection: the one ICE server, and nothing else.
    pub fn peer_configuration(self) -> (configuration: PeerConfiguration)
        ensures
            configuration.ice_servers@.len() == 1,
            configuration.ice_servers@[0].urls == self.urls,
            configuration.ice_servers@[0].username@ == or_test(self.username),
            configuration.ice_servers@[0].credential@ == or_test(self.credential),
            configuration.ice_servers@[0].credential_type == CredentialType::Password,
            self.username matches Some(username) ==> configuration.ice_servers@[0].username@
                == username@,
            self.username is None ==> configuration.ice_servers@[0].username@ == "test"@,
            self.credential matches Some(credential) ==> configuration.ice_servers@[0].credential@
                == credential@,
            self.credential is None ==> configuration.ice_servers@[0].credential@ == "test"@,
    {
        PeerConfiguration { ice_servers: vec![self.ice_server()] }
    }
}

/// An interceptor that a registry builds into every connection.
#[derive(Clone, Copy, Debug, PartialEq, Eq, Structural)]
pub enum InterceptorKind {
    NackResponder,
    NackGenerator,
    ReceiverReport,
    SenderReport,
    TwccReceiver,
}

/// A kind of RTCP feedback that a codec asks for.
#[verifier::ext_equal]
pub struct Feedback {
    pub typ: Seq<char>,
    pub parameter: Seq<char>,
}

/// What a codec can do.
#[verifier::ext_equal]
pub struct Capability {
    pub mime_type: Seq<char>,
    pub clock_rate: u32,
    pub channels: u16,
    pub sdp_fmtp_line: Seq<char>,
    pub rtcp_feedback: Seq<Feedback>,
}

/// A codec under its payload type.
#[verifier::ext_equal]
pub struct Codec {
    pub capability: Capability,
    pub payload_type: u8,
}

/// A direction in which a header extension may be used.
pub enum Direction {
    Recvonly,
    Sendonly,
}

/// A header extension: its URI, for which media and in which directions it may be used.
#[verifier::ext_equal]
pub struct HeaderExtension {
    pub uri: Seq<char>,
    pub audio: bool,
    pub video: bool,
    pub directions: Seq<Direction>,
}

/// What a track was made with: its codec, its identifier, and that of its stream.
#[verifier::ext_equal]
pub struct TrackSettings {
    pub codec: Capability,
    pub id: Seq<char>,
    pub stream_id: Seq<char>,
}

/// The audio codecs that are registered with a media engine, in order.
pub uninterp spec fn engine_audio_codecs(engine: MediaEngine) -> Seq<Codec>;

/// The video codecs that are registered with a media engine, in order.
pub uninterp spec fn engine_video_codecs(engine: MediaEngine) -> Seq<Codec>;

/// The header extensions that are registered with a media engine, in order.
pub uninterp spec fn engine_extensions(engine: MediaEngine) -> Seq<HeaderExtension>;

/// The interceptors in a registry, in the order in which they were added.
pub uninterp spec fn registry_interceptors(registry: Registry) -> Seq<InterceptorKind>;

/// The audio codecs of an API's connections, in order.
pub uninterp spec fn api_audio_codecs(api: API) -> Seq<Codec>;

/// The video codecs of an API's connections, in order.
pub uninterp spec fn api_video_codecs(api: API) -> Seq<Codec>;

/// The header extensions of an API's connections, in order.
pub uninterp spec fn api_extensions(api: API) -> Seq<HeaderExtension>;

/// The interceptors that an API builds into its connections, in order.
pub uninterp spec fn api_interceptors(api: API) -> Seq<InterceptorKind>;

/// What a track was made with.
pub uninterp spec fn track_settings(track: TrackLocalStaticRTP) -> TrackSettings;

/// A capability with a MIME type and nothing else set.
pub open spec fn bare_capability(mime_type: Seq<char>) -> Capability {
    Capability {
        mime_type,
        clock_rate: 0,
        channels: 0,
        sdp_fmtp_line: Seq::empty(),
        rtcp_feedback: Seq::empty(),
    }
}

/// An audio codec that asks for no feedback.
pub open spec fn audio_codec(
    mime_type: Seq<char>,
    clock_rate: u32,
    channels: u16,
    sdp_fmtp_line: Seq<char>,
    payload_type: u8,
) -> Codec {
    Codec {
        capability: Capability {
            mime_type,
            clock_rate,
            channels,
            sdp_fmtp_line,
            rtcp_feedback: Seq::empty(),
        },
        payload_type,
    }
}

/// A video codec with the given feedback.
pub open spec fn video_codec(
    mime_type: Seq<char>,
    sdp_fmtp_line: Seq<char>,
    rtcp_feedback: Seq<Feedback>,
    payload_type: u8,
) -> Codec {
    Codec {
        capability: Capability {
            mime_type,
            clock_rate: 90000,
            channels: 0,
            sdp_fmtp_line,
            rtcp_feedback,
        },
        payload_type,
    }
}

/// WebRTC's default audio codecs.
pub open spec fn default_audio_codecs() -> Seq<Codec> {
    seq![
        audio_codec("audio/opus"@, 48000, 2, "minptime=10;useinbandfec=1"@, 111),
        audio_codec("audio/G722"@, 8000, 0, Seq::empty(), 9),
        audio_codec("audio/PCMU"@, 8000, 0, Seq::empty(), 0),
        audio_codec("audio/PCMA"@, 8000, 0, Seq::empty(), 8),
    ]
}

/// The feedback that WebRTC's default video codecs ask for on their own account, but for
/// those that repair others.
pub open spec fn own_video_feedback() -> Seq<Feedback> {
    seq![
        Feedback { typ: "goog-remb"@, parameter: Seq::empty() },
        Feedback { typ: "ccm"@, parameter: "fir"@ },
        Feedback { typ: "nack"@, parameter: Seq::empty() },
        Feedback { typ: "nack"@, parameter: "pli"@ },
    ]
}

/// A retransmission codec.
pub open spec fn rtx(sdp_fmtp_line: Seq<char>, payload_type: u8) -> Codec {
    video_codec("video/rtx"@, sdp_fmtp_line, Seq::empty(), payload_type)
}

/// An H.264 codec.
pub open spec fn h264(sdp_fmtp_line: Seq<char>, payload_type: u8) -> Codec {
    video_codec("video/H264"@, sdp_fmtp_line, own_video_feedback(), payload_type)
}

/// WebRTC's default video codecs.
pub open spec fn default_video_codecs() -> Seq<Codec> {
    seq![
        video_codec("video/VP8"@, Seq::empty(), own_video_feedback(), 96),
        rtx("apt=96"@, 97),
        video_codec("video/VP9"@, "profile-id=0"@, own_video_feedback(), 98),
        rtx("apt=98"@, 99),
        video_codec("video/VP9"@, "profile-id=1"@, own_video_feedback(), 100),
        rtx("apt=100"@, 101),
        h264("level-asymmetry-allowed=1;packetization-mode=1;profile-level-id=42001f"@, 102),
        rtx("apt=102"@, 121),
        h264("level-asymmetry-allowed=1;packetization-mode=0;profile-level-id=42001f"@, 127),
        rtx("apt=127"@, 120),
        h264("level-asymmetry-allowed=1;packetization-mode=1;profile-level-id=42e01f"@, 125),
        rtx("apt=125"@, 107),
        h264("level-asymmetry-allowed=1;packetization-mode=0;profile-level-id=42e01f"@, 108),
        rtx("apt=108"@, 109),
        h264("level-asymmetry-allowed=1;packetization-mode=1;profile-level-id=640032"@, 123),
        rtx("apt=123"@, 118),
        video_codec("video/ulpfec"@, Seq::empty(), Seq::empty(), 116),
    ]
}

/// The same codecs, each asking for `more` as well.
pub open spec fn asking_for(codecs: Seq<Codec>, more: Seq<Feedback>) -> Seq<Codec> {
    codecs.map_values(
        |codec: Codec|
            Codec {
                capability: Capability {
                    rtcp_feedback: codec.capability.rtcp_feedback + more,
                    ..codec.capability
                },
                ..codec
            },
    )
}

/// The feedback that WebRTC's default interceptors need from video codecs.
pub open spec fn default_video_feedback() -> Seq<Feedback> {
    seq![
        Feedback { typ: "nack"@, parameter: Seq::empty() },
        Feedback { typ: "nack"@, parameter: "pli"@ },
        Feedback { typ: "transport-cc"@, parameter: Seq::empty() },
    ]
}

/// The feedback that WebRTC's default interceptors need from audio codecs.
pub open spec fn default_audio_feedback() -> Seq<Feedback> {
    seq![Feedback { typ: "transport-cc"@, parameter: Seq::empty() }]
}

/// WebRTC's default interceptors, in the order in which they are added.
pub open spec fn default_interceptors() -> Seq<InterceptorKind> {
    seq![
        InterceptorKind::NackResponder,
        InterceptorKind::NackGenerator,
        InterceptorKind::ReceiverReport,
        InterceptorKind::SenderReport,
        InterceptorKind::TwccReceiver,
    ]
}

/// The header extension for transport-wide congestion control, for audio and video in both
/// directions.
pub open spec fn transport_cc() -> HeaderExtension {
    HeaderExtension {
        uri: "http://www.ietf.org/id/draft-holmer-rmcat-transport-wide-cc-extensions-01"@,
        audio: true,
        video: true,
        directions: seq![Direction::Recvonly, Direction::Sendonly],
    }
}

/// Whether the extension for transport-wide congestion control is among the given ones.
pub open spec fn has_transport_cc(extensions: Seq<HeaderExtension>) -> bool {
    exists|i: int| 0 <= i < extensions.len() && #[trigger] extensions[i].uri == transport_cc().uri
}

/// The extensions with the one for transport-wide congestion control: in its old place, or
/// behind the others.
pub open spec fn with_transport_cc(extensions: Seq<HeaderExtension>) -> Seq<HeaderExtension> {
    if has_transport_cc(extensions) {
        extensions.map_values(
            |extension: HeaderExtension|
                if extension.uri == transport_cc().uri {
                    transport_cc()
                } else {
                    extension
                },
        )
    } else {
        extensions.push(transport_cc())
    }
}

/// The settings of the track that carries the video.
pub open spec fn video_track_settings() -> TrackSettings {
    TrackSettings { codec: bare_capability("video/VP8"@), id: "video"@, stream_id: "webrtc-rs"@ }
}

/// `MediaEngine::default`: an engine with no codec and no header extension.
#[verifier::external_body]
fn empty_media_engine() -> (engine: MediaEngine)
    ensures
        engine_audio_codecs(engine) == Seq::<Codec>::empty(),
        engine_video_codecs(engine) == Seq::<Codec>::empty(),
        engine_extensions(engine) == Seq::<HeaderExtension>::empty(),
{
    MediaEngine::default()
}

/// `MediaEngine::register_default_codecs`: it always succeeds and leaves the header extensions
/// alone. An engine without audio codecs gets WebRTC's default ones, and so with video; codecs
/// that are there stay, in front of what is added. (It also gives each codec an identifier for
/// statistics, which it reads off the clock, and takes the time to be after 1970.)
pub assume_specification[ MediaEngine::register_default_codecs ](engine: &mut MediaEngine) -> (r:
    Result<(), webrtc::Error>)
    ensures
        r is Ok,
        engine_audio_codecs(*old(engine)).is_prefix_of(engine_audio_codecs(*final(engine))),
        engine_video_codecs(*old(engine)).is_prefix_of(engine_video_codecs(*final(engine))),
        engine_audio_codecs(*old(engine)).len() == 0 ==> engine_audio_codecs(*final(engine))
            == default_audio_codecs(),
        engine_video_codecs(*old(engine)).len() == 0 ==> engine_video_codecs(*final(engine))
            == default_video_codecs(),
        engine_extensions(*final(engine)) == engine_extensions(*old(engine)),
;

/// `Registry::new`: a registry without interceptors.
pub assume_specification[ Registry::new ]() -> (registry: Registry)
    ensures
        registry_interceptors(registry) == Seq::<InterceptorKind>::empty(),
;

/// `register_default_interceptors`: it adds WebRTC's default interceptors behind those in
/// the registry and the transport-wide congestion control extension to the engine. It fails
/// if that extension is not registered yet and more than fifteen others are. The engine keeps
/// its codecs, and each asks for the feedback that the interceptors need as well; if it fails,
/// that is so of the video codecs only.
pub assume_specification[ register_default_interceptors ](
    registry: Registry,
    engine: &mut MediaEngine,
) -> (r: Result<Registry, webrtc::Error>)
    ensures
        r is Ok <==> has_transport_cc(engine_extensions(*old(engine)))
            || engine_extensions(*old(engine)).len() <= 15,
        r matches Ok(extended) ==> {
            &&& registry_interceptors(extended) == registry_interceptors(registry)
                + default_interceptors()
            &&& engine_extensions(*final(engine)) == with_transport_cc(
                engine_extensions(*old(engine)),
            )
            &&& engine_audio_codecs(*final(engine)) == asking_for(
                engine_audio_codecs(*old(engine)),
                default_audio_feedback(),
            )
        },
        r is Err ==> {
            &&& engine_extensions(*final(engine)) == engine_extensions(*old(engine))
            &&& engine_audio_codecs(*final(engine)) == engine_audio_codecs(*old(engine))
        },
        engine_video_codecs(*final(engine)) == asking_for(
            engine_video_codecs(*old(engine)),
            default_video_feedback(),
        ),
;

/// `APIBuilder::new`, `with_media_engine`, `with_interceptor_registry` and `build`: an API
/// with the codecs and the header extensions of the engine, and with the interceptors of the
/// registry.
#[verifier::external_body]
fn build_api(engine: MediaEngine, registry: Registry) -> (api: API)
    ensures
        api_audio_codecs(api) == engine_audio_codecs(engine),
        api_video_codecs(api) == engine_video_codecs(engine),
        api_extensions(api) == engine_extensions(engine),
        api_interceptors(api) == registry_interceptors(registry),
{
    APIBuilder::new().with_media_engine(engine).with_interceptor_registry(registry).build()
}

/// `MIME_TYPE_VP8`: WebRTC's MIME type of VP8 video.
#[verifier::external_body]
fn vp8_mime_type() -> (mime_type: String)
    ensures
        mime_type@ == "video/VP8"@,
{
    MIME_TYPE_VP8.to_owned()
}

/// `TrackLocalStaticRTP::new`: a track with the codec of the given MIME type and the given
/// identifiers. The other capabilities of the codec are those of
/// `RTCRtpCodecCapability::default`, which are zero or empty.
#[verifier::external_body]
fn new_track(mime_type: String, id: String, stream_id: String) -> (track: TrackLocalStaticRTP)
    ensures
        track_settings(track) == (TrackSettings {
            codec: bare_capability(mime_type@),
            id: id@,
            stream_id: stream_id@,
        }),
{
    let codec = RTCRtpCodecCapability { mime_type, ..Default::default() };
    TrackLocalStaticRTP::new(codec, id, stream_id)
}

/// Whether `api` is the one from which the peer connection is made.
pub open spec fn is_peer_api(api: API) -> bool {
    &&& api_audio_codecs(api) == asking_for(default_audio_codecs(), default_audio_feedback())
    &&& api_video_codecs(api) == asking_for(default_video_codecs(), default_video_feedback())
    &&& api_extensions(api) == seq![transport_cc()]
    &&& api_interceptors(api) == default_interceptors()
}

/// The API from which the peer connection is made: WebRTC's default codecs and default
/// interceptors, with every codec asking for the feedback that these need. Putting it together
/// never fails.
pub fn peer_api() -> (r: Result<API, webrtc::Error>)
    ensures
        r matches Ok(api) && is_peer_api(api),
{
    let mut engine = empty_media_engine();
    match engine.register_default_codecs() {
        Err(err) => Err(err),
        Ok(_) => match register_default_interceptors(Registry::new(), &mut engine) {
            Err(err) => Err(err),
            Ok(registry) => Ok(build_api(engine, registry)),
        },
    }
}

/// The track that carries the video.
pub fn video_track() -> (track: TrackLocalStaticRTP)
    ensures
        track_settings(track) == video_track_settings(),
{
    new_track(vp8_mime_type(), "video".to_string(), "webrtc-rs".to_string())
}

/// The codec of the video track is the first of those that the connections of the API support
/// for video.
pub proof fn law_video_codec_is_supported(api: API, track: TrackLocalStaticRTP)
    requires
        is_peer_api(api),
        track_settings(track) == video_track_settings(),
    ensures
        api_video_codecs(api).len() > 0,
        api_video_codecs(api)[0].capability.mime_type == track_settings(track).codec.mime_type,
{
}

} // verus!
