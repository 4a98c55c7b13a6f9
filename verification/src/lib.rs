//! Signalling and streaming logic of a drone's video peer.
//!
//! The drone keeps a socket to a signalling server, answers the descriptions and ICE
//! candidates that arrive there, and streams its camera over WebRTC. Everything that
//! decides what happens next stands in this crate as step functions: a step takes what
//! an outside party reported and says what to print and what to do. Talking to the
//! socket, the peer connection and the video pipeline is left to the program around it.

pub mod config;
pub mod holler;
pub mod listener;
pub mod negotiation;
pub mod notice;
pub mod peer;
pub mod session;
pub mod setup;
pub mod socket;
pub mod step;
pub mod stream;
pub mod video;

pub use config::Config;
