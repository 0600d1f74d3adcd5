//! The scan of a directory: which files are read, which are read again to
//! repair the store, and how far the scan has come.

use crate::comm::{is_music_file, is_music_path};
use crate::database::service::{view_all, MetadataView};
use crate::datasource::types::{ScanProgress, ScanStatus};
use crate::store::{album_is, find, lemma_find_add, lyric_of, MemoryStore, Store};
use crate::text::{from_chars, same_text, slashed, slashed_chars, to_chars};
use vstd::prelude::*;

verus! {

/// The number of files that are read at a time.
pub const WORKERS: usize = 12;

/// Tells whether a path is that of an audio file.
pub open spec fn is_music() -> spec_fn(Seq<char>) -> bool {
    |path: Seq<char>| is_music_path(path)
}

/// The paths of audio files among `files`, in order.
pub fn music_files(files: &Vec<String>) -> (r: Vec<String>)
    ensures
        view_all(r@) == view_all(files@).filter(is_music()),
{
    let ghost all = view_all(files@);
    let ghost keep = is_music();
    let mut out: Vec<String> = Vec::new();
    let mut i: usize = 0;
    assert(all.take(0).filter(keep) == Seq::<Seq<char>>::empty()) by {
        reveal(Seq::filter);
    }
    while i < files.len()
        invariant
            i <= files.len(),
            all == view_all(files@),
            keep == is_music(),
            view_all(out@) == all.take(i as int).filter(keep),
        decreases files.len() - i,
    {
        let file = &files[i];
        proof {
            let front = all.take(i as int);
            assert(all.take(i + 1) == front.push(file@));
            front.lemma_filter_push(file@, keep);
        }
        if is_music_file(file.as_str()) {
            let ghost before = view_all(out@);
            out.push(file.clone());
            assert(view_all(out@) == before.push(file@));
        }
        i = i + 1;
    }
    assert(all.take(i as int) == all);
    out
}

/// Tells whether a song lies at that path.
pub open spec fn lies_at(file_path: Seq<char>) -> spec_fn(MetadataView) -> bool {
    |row: MetadataView| row.file_path == file_path
}

/// Tells whether a file is lost to the store: no song lies at its path, or
/// the album of the song that does is missing, or that song has no lyric
/// line. The store keeps paths with forward slashes only.
pub open spec fn is_lost(store: Store, file_path: Seq<char>) -> bool {
    match find(store.songs, lies_at(slashed(file_path))) {
        None => true,
        Some(song) => find(store.albums, album_is(song.album)) is None || store.lyrics.filter(
            lyric_of(song.id),
        ).len() == 0,
    }
}

/// Tells whether a file is lost to `store`.
pub open spec fn lost_to(store: Store) -> spec_fn(Seq<char>) -> bool {
    |path: Seq<char>| is_lost(store, path)
}

impl MemoryStore {
    /// The first song that lies at `file_path`.
    pub fn get_metadata_by_path(&self, file_path: &str) -> (r: Option<crate::database::service::Metadata>)
        ensures
            match r {
                Some(row) => find(self@.songs, lies_at(file_path@)) == Some(row@),
                None => find(self@.songs, lies_at(file_path@)) is None,
            },
    {
        let ghost rows = self@.songs;
        let ghost fits = lies_at(file_path@);
        let mut i: usize = 0;
        while i < self.songs.len()
            invariant
                i <= self.songs.len(),
                rows == self@.songs,
                fits == lies_at(file_path@),
                find(rows.take(i as int), fits) is None,
            decreases self.songs.len() - i,
        {
            let row = &self.songs[i];
            assert(rows.take(i + 1).drop_last() == rows.take(i as int));
            assert(rows.take(i + 1).last() == row@);
            if same_text(row.file_path.as_str(), file_path) {
                proof {
                    lemma_find_add(rows.take(i + 1), rows.skip(i + 1), fits);
                    assert(rows.take(i + 1) + rows.skip(i + 1) == rows);
                }
                return Some(row.dup());
            }
            i = i + 1;
        }
        assert(rows.take(i as int) == rows);
        None
    }

    /// Tells whether the file at `file_path` is lost to the store and has to
    /// be read again.
    pub fn check_lost_file(&self, file_path: &str) -> (r: bool)
        ensures
            r == is_lost(self@, file_path@),
    {
        let path = from_chars(&slashed_chars(&to_chars(file_path)));
        match self.get_metadata_by_path(path.as_str()) {
            None => true,
            Some(song) => {
                let album = self.get_album_by_name(song.album.as_str());
                let lines = self.get_lyric(song.id.as_str());
                album.is_none() || lines.len() == 0
            },
        }
    }

    /// The files among `files` that are lost to the store, in order.
    pub fn lost_files(&self, files: &Vec<String>) -> (r: Vec<String>)
        ensures
            view_all(r@) == view_all(files@).filter(lost_to(self@)),
    {
        let ghost all = view_all(files@);
        let ghost keep = lost_to(self@);
        let mut out: Vec<String> = Vec::new();
        let mut i: usize = 0;
        assert(all.take(0).filter(keep) == Seq::<Seq<char>>::empty()) by {
            reveal(Seq::filter);
        }
        while i < files.len()
            invariant
                i <= files.len(),
                all == view_all(files@),
                keep == lost_to(self@),
                view_all(out@) == all.take(i as int).filter(keep),
            decreases files.len() - i,
        {
            let file = &files[i];
            proof {
                let front = all.take(i as int);
                assert(all.take(i + 1) == front.push(file@));
                front.lemma_filter_push(file@, keep);
            }
            if self.check_lost_file(file.as_str()) {
                let ghost before = view_all(out@);
                out.push(file.clone());
                assert(view_all(out@) == before.push(file@));
            }
            i = i + 1;
        }
        assert(all.take(i as int) == all);
        out
    }
}

/// The count of a scan: how many files it has, how many are done, and what
/// went wrong with those that failed.
#[derive(Debug, Clone, PartialEq, Eq)]
pub struct ScanTally {
    pub total: usize,
    pub completed: usize,
    pub errors: Vec<String>,
}

/// The share of `completed` in `total`, in hundredths of a percent; zero for
/// a scan without files.
pub open spec fn share(completed: nat, total: nat) -> nat {
    if total == 0 {
        0
    } else {
        completed * 10000 / total
    }
}

impl ScanTally {
    /// The count of a scan of `total` files, none of them done.
    pub fn new(total: usize) -> (r: Self)
        ensures
            r.total == total,
            r.completed == 0,
            r.errors@.len() == 0,
    {
        ScanTally { total, completed: 0, errors: Vec::new() }
    }

    /// Counts one more file as done. The error of a file that failed is kept;
    /// it does not stop the scan.
    pub fn record(&mut self, error: Option<String>)
        requires
            old(self).completed < old(self).total,
        ensures
            final(self).total == old(self).total,
            final(self).completed == old(self).completed + 1,
            view_all(final(self).errors@) == match error {
                Some(message) => view_all(old(self).errors@).push(message@),
                None => view_all(old(self).errors@),
            },
    {
        self.completed = self.completed + 1;
        if let Some(message) = error {
            self.errors.push(message);
            assert(view_all(self.errors@) == view_all(old(self).errors@).push(message@));
        }
    }

    /// Tells whether every file is done.
    pub fn is_done(&self) -> (r: bool)
        ensures
            r == (self.completed >= self.total),
    {
        self.completed >= self.total
    }

    /// The share of the files that are done, in hundredths of a percent.
    pub fn percent(&self) -> (r: u64)
        requires
            self.completed <= self.total,
        ensures
            r == share(self.completed as nat, self.total as nat),
            r <= 10000,
    {
        if self.total == 0 {
            return 0;
        }
        let done: u128 = (self.completed as u128) * 10000;
        let part: u128 = done / (self.total as u128);
        assert(part <= 10000) by (nonlinear_arith)
            requires
                part as int == (self.completed as int * 10000) / (self.total as int),
                self.completed <= self.total,
                self.total > 0,
        ;
        part as u64
    }

    /// How far the scan has come, for those who ask: scanning while files
    /// are left, completed after the last one. The first error stands for
    /// all.
    pub fn progress(&self, current_file: Option<String>) -> (r: ScanProgress)
        ensures
            r.status == if self.completed >= self.total {
                ScanStatus::Completed
            } else {
                ScanStatus::Scanning
            },
            r.processed == self.completed,
            r.total == self.total,
            r.current_file == current_file,
            match r.error {
                Some(message) => self.errors@.len() > 0 && message@ == self.errors@[0]@,
                None => self.errors@.len() == 0,
            },
    {
        let status = if self.completed >= self.total {
            ScanStatus::Completed
        } else {
            ScanStatus::Scanning
        };
        let error = if self.errors.len() > 0 {
            Some(self.errors[0].clone())
        } else {
            None
        };
        ScanProgress {
            status,
            processed: self.completed,
            total: self.total,
            current_file,
            error,
        }
    }
}

} // verus!
