pub mod events;
pub mod keys;
pub mod lyrics;
pub mod state;
pub mod text;
pub mod player;
pub mod laws;
pub mod order;
pub mod error;
pub mod mpd;
pub mod library;
pub mod audio;
pub mod config;
pub mod controller;
pub mod view;
pub mod runner;
pub mod presets;
pub mod artwork;
pub mod pcm;
pub mod popups;
pub mod cover;
