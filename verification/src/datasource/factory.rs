//! The choice of the source of music.

use crate::config::Config;
use crate::text::{chars_eq, fold, fold_chars, to_chars};
use vstd::prelude::*;

verus! {

/// The kinds of source.
#[derive(Debug, Clone, Copy, PartialEq, Eq, Structural)]
pub enum DataSourceMode {
    /// The local directory.
    Local,
    /// A Subsonic server.
    Subsonic,
}

/// The kind of source that a mode text names: Subsonic for `subsonic` in
/// any case of letters, the local directory for anything else.
pub open spec fn mode_of(mode: Seq<char>) -> DataSourceMode {
    if fold(mode) == "subsonic"@ {
        DataSourceMode::Subsonic
    } else {
        DataSourceMode::Local
    }
}

/// The kind of source that the settings name.
pub fn get_data_source_mode(config: &Config) -> (r: DataSourceMode)
    ensures
        r == mode_of(config.data_source.mode@),
{
    let mode = fold_chars(&to_chars(config.data_source.mode.as_str()));
    let subsonic = to_chars("subsonic");
    if chars_eq(&mode, &subsonic) {
        DataSourceMode::Subsonic
    } else {
        DataSourceMode::Local
    }
}

} // verus!
