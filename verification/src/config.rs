//! The settings of the server.

use vstd::prelude::*;

verus! {

/// The settings of the source of music.
#[derive(Debug, Clone, PartialEq, Eq)]
pub struct DataSourceConfig {
    /// The kind of source: `local` or `subsonic`, in any case of letters.
    pub mode: String,
}

/// The settings of the server.
#[derive(Debug, Clone, PartialEq, Eq)]
pub struct Config {
    /// The address that the server binds.
    pub ip: String,
    /// The port that the server binds.
    pub port: u64,
    /// The directory of the pages of the front end.
    pub web_dir: String,
    /// The root directory of the music.
    pub music_dir: String,
    /// The path of the database.
    pub db_path: String,
    /// The source of music.
    pub data_source: DataSourceConfig,
}

} // verus!
