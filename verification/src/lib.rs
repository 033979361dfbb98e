//! Verified core of a media player.
pub mod audio_boundary;
pub mod background_indexer;
pub mod channel;
pub mod command;
pub mod demux;
pub mod diagnostics;
pub mod error;
pub mod event;
pub mod media;
pub mod media_install;
pub mod media_opening;
pub mod path;
pub mod pipeline;
pub mod playback_rate;
pub mod playback_window;
pub mod prepared_demux_seek;
pub mod render_lease_bridge;
pub mod runtime_settings;
pub mod state;
mod text;
pub mod time;
