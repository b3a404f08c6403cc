//! Follows Twitch channels: keeps the list of them, finds out which are live, and decides
//! what is shown of each.
pub mod app;
pub mod bytes;
pub mod channel;
pub mod config;
pub mod decode;
pub mod duration;
pub mod either;
pub mod helix;
pub mod images;
pub mod info;
pub mod input;
pub mod jpeg;
pub mod laws;
pub mod png;
pub mod promises;
pub mod roster;
pub mod runtime;
pub mod state;
pub mod status;
pub mod text;
