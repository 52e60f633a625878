//! Audio playback engine: playlist queue, sample routing and playback control.

pub mod browser;
pub mod command;
pub mod controls;
pub mod decoder;
pub mod input;
pub mod library;
pub mod m3u;
pub mod media;
pub mod output;
pub mod player;
pub mod playlist;
pub mod session;
pub mod settings;
pub mod text;
pub mod view;
