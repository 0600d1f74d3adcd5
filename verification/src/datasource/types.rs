//! What a source of music hands out.

use crate::database::covert::genre_names;
use crate::database::covert::split_original;
use crate::database::service::view_all;
use vstd::prelude::*;

verus! {

/// A page of a list: its number, from one, and its length.
#[derive(Debug, Clone, Copy, PartialEq, Eq, Structural)]
pub struct Pagination {
    pub page: usize,
    pub page_size: usize,
}

impl Pagination {
    /// The page `page` of pages of `page_size` items.
    pub fn new(page: usize, page_size: usize) -> (r: Self)
        ensures
            r == (Pagination { page, page_size }),
    {
        Self { page, page_size }
    }

    /// Tells whether the page has a number and a length above zero.
    pub fn is_valid(&self) -> (r: bool)
        ensures
            r == (self.page > 0 && self.page_size > 0),
    {
        self.page > 0 && self.page_size > 0
    }

    /// The place of the first item of the page.
    pub fn start(&self) -> (r: usize)
        requires
            self.page > 0,
            (self.page - 1) * self.page_size <= usize::MAX,
        ensures
            r == (self.page - 1) * self.page_size,
    {
        (self.page - 1) * self.page_size
    }

    /// The place of the first item of the page in a list of `total` items,
    /// or `total` where the list ends before the page does.
    pub fn safe_start(&self, total: usize) -> (r: usize)
        requires
            self.page > 0,
            self.page * self.page_size <= usize::MAX,
        ensures
            r == if self.page * self.page_size > total {
                total as int
            } else {
                (self.page - 1) * self.page_size
            },
            r <= total,
    {
        assert((self.page - 1) * self.page_size <= self.page * self.page_size)
            by (nonlinear_arith)
            requires
                self.page > 0,
        ;
        if self.page * self.page_size > total {
            total
        } else {
            self.start()
        }
    }

    /// The place after the last item of the page in a list of `total` items.
    pub fn end(&self, total: usize) -> (r: usize)
        requires
            self.page * self.page_size <= usize::MAX,
        ensures
            r == if self.page * self.page_size > total {
                total as int
            } else {
                self.page * self.page_size
            },
            r <= total,
    {
        if self.page * self.page_size > total {
            total
        } else {
            self.page * self.page_size
        }
    }
}

/// The kind of a source of music.
#[derive(Debug, Clone, Copy, PartialEq, Eq, Structural)]
pub enum DataSourceType {
    /// The local directory.
    Local,
    /// A Subsonic server.
    Subsonic,
}

/// Where the sound of a song comes from.
#[derive(Debug, Clone, PartialEq, Eq)]
pub enum AudioStream {
    /// A local file, by its path.
    LocalFile(String),
    /// A stream of a Subsonic server, by its address and the headers to send.
    SubsonicStream { url: String, headers: Vec<(String, String)> },
}

/// The sizes at which covers are handed out.
#[derive(Debug, Clone, Copy, PartialEq, Eq, Structural)]
pub enum CoverSize {
    /// An edge of 140 pixels.
    Small,
    /// An edge of 600 pixels.
    Medium,
    /// The size of the image in the file.
    Large,
}

impl CoverSize {
    /// The name of the size, as covers are kept under it.
    pub fn as_str(&self) -> (r: &'static str)
        ensures
            r@ == match *self {
                CoverSize::Small => "small"@,
                CoverSize::Medium => "medium"@,
                CoverSize::Large => "large"@,
            },
    {
        match self {
            CoverSize::Small => "small",
            CoverSize::Medium => "medium",
            CoverSize::Large => "large",
        }
    }
}

/// What to list of the songs.
#[derive(Debug, Clone, PartialEq, Eq)]
pub struct MetadataFilter {
    /// The number of the page, from one.
    pub page: Option<usize>,
    /// The length of a page.
    pub page_size: Option<usize>,
    /// The genres to keep.
    pub genres: Option<Vec<String>>,
    /// The ids of the artists to keep.
    pub artist_ids: Option<Vec<String>>,
    /// The ids of the albums to keep.
    pub album_ids: Option<Vec<String>>,
    /// A word to look for.
    pub keyword: Option<String>,
}

/// How far a scan has come.
#[derive(Debug, Clone, PartialEq, Eq)]
pub struct ScanProgress {
    /// The state of the scan.
    pub status: ScanStatus,
    /// The files that are done.
    pub processed: usize,
    /// All the files of the scan.
    pub total: usize,
    /// The file that is being read.
    pub current_file: Option<String>,
    /// What went wrong, if anything did.
    pub error: Option<String>,
}

/// The states of a scan.
#[derive(Debug, Clone, Copy, PartialEq, Eq, Structural)]
pub enum ScanStatus {
    /// Not started.
    Idle,
    /// Under way.
    Scanning,
    /// Done.
    Completed,
    /// Given up.
    Failed,
}

/// An album, as a source hands it out.
#[derive(Debug, Clone, PartialEq, Eq)]
pub struct AlbumInfo {
    pub id: String,
    pub name: String,
    pub artist: String,
    pub year: String,
    pub cover_art: Option<String>,
    pub song_count: usize,
}

/// An artist, as a source hands it out.
#[derive(Debug, Clone, PartialEq, Eq)]
pub struct ArtistInfo {
    pub id: String,
    pub name: String,
    pub album_count: usize,
    pub cover_art: Option<String>,
}

/// The tags in a genre text: its pieces between commas, trimmed, without the
/// empty ones.
pub fn split_genre(genre: &str) -> (r: Vec<String>)
    ensures
        view_all(r@) == genre_names(genre@),
{
    proof {
        reveal_strlit(",");
        assert(","@ == seq![',']);
    }
    split_original(genre, ",")
}

} // verus!
