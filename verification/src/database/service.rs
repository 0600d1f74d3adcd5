//! The rows that the store keeps, one type per table.

use vstd::prelude::*;

verus! {

/// The views of the elements of a sequence, in order.
pub open spec fn view_all<T: View>(s: Seq<T>) -> Seq<T::V> {
    Seq::new(s.len(), |i: int| s[i]@)
}

/// A cover image of an album or a song, at one size.
#[derive(Debug, Clone, PartialEq, Eq)]
pub struct Cover {
    pub kind: String,
    pub link_id: i64,
    pub format: String,
    pub size: String,
    pub length: usize,
    pub width: u32,
    pub height: u32,
    pub base64: String,
}

/// What a [`Cover`] row says.
pub struct CoverView {
    pub kind: Seq<char>,
    pub link_id: int,
    pub format: Seq<char>,
    pub size: Seq<char>,
    pub length: nat,
    pub width: nat,
    pub height: nat,
    pub base64: Seq<char>,
}

impl View for Cover {
    type V = CoverView;

    open spec fn view(&self) -> CoverView {
        CoverView {
            kind: self.kind@,
            link_id: self.link_id as int,
            format: self.format@,
            size: self.size@,
            length: self.length as nat,
            width: self.width as nat,
            height: self.height as nat,
            base64: self.base64@,
        }
    }
}

impl Cover {
    /// A copy of this row.
    pub fn dup(&self) -> (r: Cover)
        ensures
            r@ == self@,
    {
        Cover {
            kind: self.kind.clone(),
            link_id: self.link_id,
            format: self.format.clone(),
            size: self.size.clone(),
            length: self.length,
            width: self.width,
            height: self.height,
            base64: self.base64.clone(),
        }
    }
}

/// One line of a song's lyrics. The time is in milliseconds from the start.
#[derive(Debug, Clone, PartialEq, Eq)]
pub struct Lyric {
    pub id: usize,
    pub song_id: String,
    pub time_ms: u64,
    pub text: String,
    pub language: String,
}

/// What a [`Lyric`] row says.
pub struct LyricView {
    pub id: nat,
    pub song_id: Seq<char>,
    pub time_ms: nat,
    pub text: Seq<char>,
    pub language: Seq<char>,
}

impl View for Lyric {
    type V = LyricView;

    open spec fn view(&self) -> LyricView {
        LyricView {
            id: self.id as nat,
            song_id: self.song_id@,
            time_ms: self.time_ms as nat,
            text: self.text@,
            language: self.language@,
        }
    }
}

impl Lyric {
    /// A copy of this row.
    pub fn dup(&self) -> (r: Lyric)
        ensures
            r@ == self@,
    {
        Lyric {
            id: self.id,
            song_id: self.song_id.clone(),
            time_ms: self.time_ms,
            text: self.text.clone(),
            language: self.language.clone(),
        }
    }
}

/// A song. The duration is in milliseconds.
#[derive(Debug, Clone, PartialEq, Eq)]
pub struct Metadata {
    pub id: String,
    pub file_name: String,
    pub file_path: String,
    pub file_url: String,
    pub title: String,
    pub artist: String,
    pub album: String,
    pub year: String,
    pub duration_ms: u64,
    pub bitrate: String,
    pub samplerate: String,
    pub language: String,
    pub genre: String,
    pub track: String,
    pub disc: String,
    pub comment: String,
}

/// What a [`Metadata`] row says.
pub struct MetadataView {
    pub id: Seq<char>,
    pub file_name: Seq<char>,
    pub file_path: Seq<char>,
    pub file_url: Seq<char>,
    pub title: Seq<char>,
    pub artist: Seq<char>,
    pub album: Seq<char>,
    pub year: Seq<char>,
    pub duration_ms: nat,
    pub bitrate: Seq<char>,
    pub samplerate: Seq<char>,
    pub language: Seq<char>,
    pub genre: Seq<char>,
    pub track: Seq<char>,
    pub disc: Seq<char>,
    pub comment: Seq<char>,
}

impl View for Metadata {
    type V = MetadataView;

    open spec fn view(&self) -> MetadataView {
        MetadataView {
            id: self.id@,
            file_name: self.file_name@,
            file_path: self.file_path@,
            file_url: self.file_url@,
            title: self.title@,
            artist: self.artist@,
            album: self.album@,
            year: self.year@,
            duration_ms: self.duration_ms as nat,
            bitrate: self.bitrate@,
            samplerate: self.samplerate@,
            language: self.language@,
            genre: self.genre@,
            track: self.track@,
            disc: self.disc@,
            comment: self.comment@,
        }
    }
}

impl Metadata {
    /// A copy of this row.
    pub fn dup(&self) -> (r: Metadata)
        ensures
            r@ == self@,
    {
        Metadata {
            id: self.id.clone(),
            file_name: self.file_name.clone(),
            file_path: self.file_path.clone(),
            file_url: self.file_url.clone(),
            title: self.title.clone(),
            artist: self.artist.clone(),
            album: self.album.clone(),
            year: self.year.clone(),
            duration_ms: self.duration_ms,
            bitrate: self.bitrate.clone(),
            samplerate: self.samplerate.clone(),
            language: self.language.clone(),
            genre: self.genre.clone(),
            track: self.track.clone(),
            disc: self.disc.clone(),
            comment: self.comment.clone(),
        }
    }
}

/// A playlist.
#[derive(Debug, Clone, PartialEq, Eq)]
pub struct SongList {
    pub id: i64,
    pub user_id: i64,
    pub name: String,
    pub description: String,
    pub cover: String,
    pub created_at: String,
}

/// The place of a song in a playlist.
#[derive(Debug, Clone, PartialEq, Eq)]
pub struct SongListSong {
    pub user_id: i64,
    pub song_list_id: i64,
    pub song_id: String,
    pub order_num: i64,
}

/// An account.
#[derive(Debug, Clone, PartialEq, Eq)]
pub struct User {
    pub id: i64,
    pub name: String,
    pub password: String,
    pub email: String,
    pub role: String,
    pub created_at: String,
    pub updated_at: String,
}

/// A login token of an account.
#[derive(Debug, Clone, PartialEq, Eq)]
pub struct UserToken {
    pub user_id: i64,
    pub token: String,
    pub expire_at: i64,
}

/// A song that an account marked as a favourite.
#[derive(Debug, Clone, PartialEq, Eq)]
pub struct UserFavorite {
    pub user_id: i64,
    pub song_id: String,
    pub created_at: String,
}

/// An artist.
#[derive(Debug, Clone, PartialEq, Eq)]
pub struct Artist {
    pub id: i64,
    pub name: String,
    pub cover: String,
    pub description: String,
}

/// What an [`Artist`] row says.
pub struct ArtistView {
    pub id: int,
    pub name: Seq<char>,
    pub cover: Seq<char>,
    pub description: Seq<char>,
}

impl View for Artist {
    type V = ArtistView;

    open spec fn view(&self) -> ArtistView {
        ArtistView {
            id: self.id as int,
            name: self.name@,
            cover: self.cover@,
            description: self.description@,
        }
    }
}

impl Artist {
    /// A copy of this row.
    pub fn dup(&self) -> (r: Artist)
        ensures
            r@ == self@,
    {
        Artist {
            id: self.id,
            name: self.name.clone(),
            cover: self.cover.clone(),
            description: self.description.clone(),
        }
    }
}

/// The link between an artist and a song.
#[derive(Debug, Clone, PartialEq, Eq)]
pub struct ArtistSong {
    pub artist_id: i64,
    pub song_id: String,
}

/// What an [`ArtistSong`] row says.
pub struct ArtistSongView {
    pub artist_id: int,
    pub song_id: Seq<char>,
}

impl View for ArtistSong {
    type V = ArtistSongView;

    open spec fn view(&self) -> ArtistSongView {
        ArtistSongView { artist_id: self.artist_id as int, song_id: self.song_id@ }
    }
}

impl ArtistSong {
    /// A copy of this row.
    pub fn dup(&self) -> (r: ArtistSong)
        ensures
            r@ == self@,
    {
        ArtistSong { artist_id: self.artist_id, song_id: self.song_id.clone() }
    }
}

/// The key of a song.
#[derive(Debug, Clone, PartialEq, Eq)]
pub struct Song {
    pub id: String,
}

/// An album.
#[derive(Debug, Clone, PartialEq, Eq)]
pub struct Album {
    pub id: i64,
    pub name: String,
    pub description: String,
    pub year: String,
    pub artist: String,
}

/// What an [`Album`] row says.
pub struct AlbumView {
    pub id: int,
    pub name: Seq<char>,
    pub description: Seq<char>,
    pub year: Seq<char>,
    pub artist: Seq<char>,
}

impl View for Album {
    type V = AlbumView;

    open spec fn view(&self) -> AlbumView {
        AlbumView {
            id: self.id as int,
            name: self.name@,
            description: self.description@,
            year: self.year@,
            artist: self.artist@,
        }
    }
}

impl Album {
    /// An album of that name, with every other field empty and no id yet.
    pub fn new(name: String) -> (r: Album)
        ensures
            r@ == (AlbumView {
                id: 0,
                name: name@,
                description: Seq::empty(),
                year: Seq::empty(),
                artist: Seq::empty(),
            }),
    {
        Album {
            id: 0,
            name,
            description: String::new(),
            year: String::new(),
            artist: String::new(),
        }
    }

    /// A copy of this row.
    pub fn dup(&self) -> (r: Album)
        ensures
            r@ == self@,
    {
        Album {
            id: self.id,
            name: self.name.clone(),
            description: self.description.clone(),
            year: self.year.clone(),
            artist: self.artist.clone(),
        }
    }
}

/// The link between an album and a song, with the names kept beside it.
#[derive(Debug, Clone, PartialEq, Eq)]
pub struct AlbumSong {
    pub album_id: i64,
    pub song_id: String,
    pub album_name: String,
    pub song_title: String,
    pub album_artist: String,
}

/// What an [`AlbumSong`] row says.
pub struct AlbumSongView {
    pub album_id: int,
    pub song_id: Seq<char>,
    pub album_name: Seq<char>,
    pub song_title: Seq<char>,
    pub album_artist: Seq<char>,
}

impl View for AlbumSong {
    type V = AlbumSongView;

    open spec fn view(&self) -> AlbumSongView {
        AlbumSongView {
            album_id: self.album_id as int,
            song_id: self.song_id@,
            album_name: self.album_name@,
            song_title: self.song_title@,
            album_artist: self.album_artist@,
        }
    }
}

impl AlbumSong {
    /// A copy of this row.
    pub fn dup(&self) -> (r: AlbumSong)
        ensures
            r@ == self@,
    {
        AlbumSong {
            album_id: self.album_id,
            song_id: self.song_id.clone(),
            album_name: self.album_name.clone(),
            song_title: self.song_title.clone(),
            album_artist: self.album_artist.clone(),
        }
    }
}

} // verus!
