//! Playback control plane of a streaming-radio client: stream URL vetting,
//! the single-slot player controller, the player's command line and control
//! messages, and the media-control bridge's data and ordering rules.

pub mod api;
pub mod audio;
pub mod config;
pub mod mpris;
pub mod stream_url;
pub mod subscription;
pub mod text;
pub mod volume;

pub use api::Station;
pub use audio::AudioManager;
pub use config::Config;
