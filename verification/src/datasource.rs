//! The sources of music that the server can read, and what they hand out.

pub mod factory;
pub mod local;
pub mod subsonic;
pub mod types;
