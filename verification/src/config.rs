//! The configuration of the program.

use vstd::prelude::*;

#[allow(unused_imports)]
use crate::peer::default_ice_config;
use crate::peer::IceConfig;
use crate::socket::SocketConfig;
use crate::video::VideoConfig;

verus! {

/// The configuration of the socket, the video and the peer connection.
#[derive(Debug, PartialEq, Eq)]
pub struct Config {
    pub socket: SocketConfig,
    pub video: VideoConfig,
    pub web_rtc: IceConfig,
}

impl Clone for Config {
    fn clone(&self) -> (copy: Self)
        ensures
            copy.socket == self.socket,
            copy.video == self.video,
            copy.web_rtc@ == self.web_rtc@,
            copy.web_rtc.urls@ == self.web_rtc.urls@,
            copy.web_rtc.username == self.web_rtc.username,
            copy.web_rtc.credential == self.web_rtc.credential,
    {
        Config {
            socket: self.socket.clone(),
            video: self.video.clone(),
            web_rtc: self.web_rtc.clone(),
        }
    }
}

impl Config {
    /// The default configuration, which captures from the given device.
    pub fn with_video_source(device: String) -> (config: Self)
        ensures
            config.socket.url@ == "http://localhost:3000?uin=BOB&type=MavDrone"@,
            config.video == (VideoConfig { device: Some(device) }),
            config.web_rtc@ == default_ice_config(),
    {
        Config {
            socket: SocketConfig::default(),
            video: VideoConfig::with_source(device),
            web_rtc: IceConfig::default(),
        }
    }
}

} // verus!
