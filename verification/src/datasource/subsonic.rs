//! A Subsonic server as a source of music.

pub mod auth;
