pub mod app;
pub mod browse;
pub mod commands;
pub mod control_laws;
pub mod details;
pub mod downloads;
pub mod embedded;
pub mod handle;
pub mod hunt;
pub mod key_laws;
pub mod keys;
pub mod laws;
pub mod navigate;
pub mod playback;
pub mod playback_laws;
pub mod pool;
pub mod screen_laws;
pub mod search;
pub mod startup;
pub mod state;
pub mod stream_laws;
pub mod streams;
pub mod text;
pub mod titles;
