//! The local directory of music as a source.

use vstd::prelude::*;

verus! {

/// The source of music that reads a local directory and its database.
#[derive(Debug, Clone, PartialEq, Eq)]
pub struct LocalDataSource {
    pub music_dir: String,
    pub db_path: String,
}

impl LocalDataSource {
    /// A source that reads the directory `music_dir` and the database at
    /// `db_path`.
    pub fn new(music_dir: String, db_path: String) -> (r: Self)
        ensures
            r.music_dir@ == music_dir@,
            r.db_path@ == db_path@,
    {
        Self { music_dir, db_path }
    }
}

} // verus!
