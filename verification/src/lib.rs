//! Verified core of a Spotify terminal client.
pub mod art;
pub mod auth;
pub mod browse;
pub mod cli;
pub mod config;
pub mod dashboard;
pub mod detail;
pub mod devices;
pub mod format;
pub mod json;
pub mod keys;
pub mod layout;
pub mod match_name;
pub mod np_json;
pub mod playback;
pub mod queue;
pub mod rate_limit;
pub mod search;
pub mod text;
pub mod theme;
pub mod view;
