use rust_socketio::Event;
use tas_rust::peer::{CredentialType, IceConfig, IceServer, PeerConfiguration};
use tas_rust::socket::{SocketConfig, SocketEvent};
use tas_rust::video::VideoConfig;
use tas_rust::Config;

#[test]
fn default_configuration_is_local() {
    let config = Config::with_video_source("/dev/video0".to_string());
    assert_eq!(config.socket.url, "http://localhost:3000?uin=BOB&type=MavDrone");
    assert_eq!(config.video.device, Some("/dev/video0".to_string()));
    assert_eq!(config.web_rtc.urls, vec!["turn:localhost:5450".to_string()]);
    assert_eq!(config.web_rtc.username, Some("test".to_string()));
    assert_eq!(config.web_rtc.credential, Some("test".to_string()));
    assert_eq!(config.socket, SocketConfig::default());
    assert_eq!(config.web_rtc, IceConfig::default());
}

#[test]
fn clones_are_equal() {
    let config = Config {
        socket: SocketConfig { url: "http://example.org".to_string() },
        video: VideoConfig { device: None },
        web_rtc: IceConfig {
            urls: vec!["stun:a".to_string(), "turn:b".to_string()],
            username: None,
            credential: Some("secret".to_string()),
        },
    };
    assert_eq!(config.clone(), config);
}

#[test]
fn ice_server_takes_the_configured_credentials() {
    let config = IceConfig {
        urls: vec!["turn:a".to_string(), "turn:b".to_string()],
        username: Some("bob".to_string()),
        credential: Some("secret".to_string()),
    };
    assert_eq!(
        config.ice_server(),
        IceServer {
            urls: vec!["turn:a".to_string(), "turn:b".to_string()],
            username: "bob".to_string(),
            credential: "secret".to_string(),
            credential_type: CredentialType::Password,
        }
    );
}

#[test]
fn ice_server_falls_back_to_test_credentials() {
    let config = IceConfig { urls: vec![], username: None, credential: None };
    let server = config.ice_server();
    assert_eq!(server.urls.len(), 0);
    assert_eq!(server.username, "test");
    assert_eq!(server.credential, "test");
    let config = IceConfig {
        urls: vec![],
        username: Some(String::new()),
        credential: None,
    };
    assert_eq!(config.ice_server().username, "");
}

#[test]
fn socket_events_become_custom_events() {
    assert_eq!(Event::from(SocketEvent::BEGIN), Event::Custom("begin".to_string()));
    assert_eq!(Event::from(SocketEvent::HOLLER), Event::Custom("holler".to_string()));
    let event: Event = SocketEvent::HOLLER.into();
    assert_eq!(event.as_str(), "holler");
}

#[test]
fn connection_gets_exactly_one_ice_server() {
    let config = IceConfig {
        urls: vec!["turn:a".to_string(), "turn:b".to_string()],
        username: Some("bob".to_string()),
        credential: None,
    };
    assert_eq!(
        config.peer_configuration(),
        PeerConfiguration {
            ice_servers: vec![IceServer {
                urls: vec!["turn:a".to_string(), "turn:b".to_string()],
                username: "bob".to_string(),
                credential: "test".to_string(),
                credential_type: CredentialType::Password,
            }],
        }
    );
}
