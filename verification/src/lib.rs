//! Playback and control logic of the Sendspin `player@v1` VST3 plugin.

pub mod clock;
pub mod config;
pub mod constants;
pub mod editor;
pub mod mdns;
pub mod network;
pub mod pcm;
pub mod playback;
pub mod protocol;
pub mod queue;
pub mod state;
pub mod text;

pub use playback::SendspinVst3;
