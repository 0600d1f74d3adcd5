//! The reconciliation of one file with the store, as a machine.
//!
//! The machine decides; its driver talks to the store. It starts with the
//! lookup of the song, and each reply of the store takes it one step on:
//! song, album and its link, artists and their links, covers, lyrics. Every
//! step first looks up what is there and adds only what is missing.

use crate::database::covert::{new_album, new_album_song, new_artist, new_cover, new_lyric, payload_fits, song_artists};
use crate::database::service::{
    view_all, Album, AlbumSong, AlbumSongView, AlbumView, Artist, ArtistSong, ArtistSongView,
    ArtistView, Cover, CoverView, Lyric, LyricView, Metadata, MetadataView,
};
use crate::readmeta::{DecodedView, ImageView, MyMetadata};
use vstd::prelude::*;

verus! {

/// Where the machine stands: what it waits for.
#[derive(Debug, Clone, Copy, PartialEq, Eq, Structural)]
pub enum Phase {
    SongLookup,
    SongInsert,
    SongMove,
    AlbumLookup,
    AlbumInsert,
    AlbumSongLookup,
    AlbumSongInsert,
    ArtistLookup,
    ArtistInsert,
    LinkLookup,
    LinkInsert,
    CoverSmall,
    CoverMedium,
    CoverRead,
    CoverEach,
    CoverInsert,
    LyricLookup,
    LyricInsert,
    Done,
    Failed,
}

/// Why a reconciliation was given up.
#[derive(Debug, Clone, PartialEq, Eq)]
pub enum ReconcileError {
    /// The store failed, with this message.
    Store(String),
    /// The reply does not answer what was asked.
    UnexpectedReply,
}

/// What a [`ReconcileError`] says.
pub enum ErrorView {
    Store(Seq<char>),
    UnexpectedReply,
}

impl View for ReconcileError {
    type V = ErrorView;

    open spec fn view(&self) -> ErrorView {
        match self {
            ReconcileError::Store(message) => ErrorView::Store(message@),
            ReconcileError::UnexpectedReply => ErrorView::UnexpectedReply,
        }
    }
}

/// What the reconciliation of one file did.
#[derive(Debug, Clone, PartialEq, Eq)]
pub struct Summary {
    /// The id under which the store keeps the song.
    pub song_id: String,
    /// The id of the album of the song.
    pub album_id: i64,
    /// The links between song and album that were added.
    pub album_songs: usize,
    /// The artists of the song.
    pub artists: usize,
    /// The links between song and artists that were added.
    pub artist_songs: usize,
    /// The covers that were added.
    pub covers: usize,
    /// The lyric lines that the store held already or, where it held none,
    /// those that were added.
    pub lyrics: usize,
}

/// What a [`Summary`] says.
pub struct SummaryView {
    pub song_id: Seq<char>,
    pub album_id: int,
    pub album_songs: nat,
    pub artists: nat,
    pub artist_songs: nat,
    pub covers: nat,
    pub lyrics: nat,
}

impl View for Summary {
    type V = SummaryView;

    open spec fn view(&self) -> SummaryView {
        SummaryView {
            song_id: self.song_id@,
            album_id: self.album_id as int,
            album_songs: self.album_songs as nat,
            artists: self.artists as nat,
            artist_songs: self.artist_songs as nat,
            covers: self.covers as nat,
            lyrics: self.lyrics as nat,
        }
    }
}

/// What the machine asks of its driver.
#[derive(Debug, Clone, PartialEq, Eq)]
pub enum Action {
    /// Look up the song of that title and artist.
    FindSong { title: String, artist: String },
    /// Add the song.
    AddSong { song: Metadata },
    /// Give the song of that id a new file name, path and address.
    MoveSong { id: String, file_name: String, file_path: String, file_url: String },
    /// Look up the album of that name.
    FindAlbum { name: String },
    /// Add the album; the store gives it its id.
    AddAlbum { album: Album },
    /// Look up the link between that song and that album.
    FindAlbumSong { song_id: String, album_id: i64 },
    /// Add the link between a song and an album.
    AddAlbumSong { link: AlbumSong },
    /// Look up the artist of that name.
    FindArtist { name: String },
    /// Add the artist; the store gives it its id.
    AddArtist { artist: Artist },
    /// Look up the links of that song to artists.
    FindArtistSongs { song_id: String },
    /// Add the links between a song and artists, all or none.
    AddArtistSongs { links: Vec<ArtistSong> },
    /// Tell whether a cover is kept for that id, under that kind, at that size.
    FindCover { link_id: i64, kind: String, size: String },
    /// Decode the images of the file and derive the covers from them.
    ReadCovers,
    /// Add the covers, all or none.
    AddCovers { covers: Vec<Cover> },
    /// Count the lyric lines of that song.
    FindLyrics { song_id: String },
    /// Add the lyric lines, all or none.
    AddLyrics { lines: Vec<Lyric> },
    /// Nothing more: the file is reconciled.
    Finish { summary: Summary },
    /// Nothing more: the reconciliation is given up.
    Abort { error: ReconcileError },
}

/// What an [`Action`] says.
pub enum ActionView {
    FindSong { title: Seq<char>, artist: Seq<char> },
    AddSong { song: MetadataView },
    MoveSong { id: Seq<char>, file_name: Seq<char>, file_path: Seq<char>, file_url: Seq<char> },
    FindAlbum { name: Seq<char> },
    AddAlbum { album: AlbumView },
    FindAlbumSong { song_id: Seq<char>, album_id: int },
    AddAlbumSong { link: AlbumSongView },
    FindArtist { name: Seq<char> },
    AddArtist { artist: ArtistView },
    FindArtistSongs { song_id: Seq<char> },
    AddArtistSongs { links: Seq<ArtistSongView> },
    FindCover { link_id: int, kind: Seq<char>, size: Seq<char> },
    ReadCovers,
    AddCovers { covers: Seq<CoverView> },
    FindLyrics { song_id: Seq<char> },
    AddLyrics { lines: Seq<LyricView> },
    Finish { summary: SummaryView },
    Abort { error: ErrorView },
}

impl View for Action {
    type V = ActionView;

    open spec fn view(&self) -> ActionView {
        match self {
            Action::FindSong { title, artist } => ActionView::FindSong {
                title: title@,
                artist: artist@,
            },
            Action::AddSong { song } => ActionView::AddSong { song: song@ },
            Action::MoveSong { id, file_name, file_path, file_url } => ActionView::MoveSong {
                id: id@,
                file_name: file_name@,
                file_path: file_path@,
                file_url: file_url@,
            },
            Action::FindAlbum { name } => ActionView::FindAlbum { name: name@ },
            Action::AddAlbum { album } => ActionView::AddAlbum { album: album@ },
            Action::FindAlbumSong { song_id, album_id } => ActionView::FindAlbumSong {
                song_id: song_id@,
                album_id: *album_id as int,
            },
            Action::AddAlbumSong { link } => ActionView::AddAlbumSong { link: link@ },
            Action::FindArtist { name } => ActionView::FindArtist { name: name@ },
            Action::AddArtist { artist } => ActionView::AddArtist { artist: artist@ },
            Action::FindArtistSongs { song_id } => ActionView::FindArtistSongs {
                song_id: song_id@,
            },
            Action::AddArtistSongs { links } => ActionView::AddArtistSongs {
                links: view_all(links@),
            },
            Action::FindCover { link_id, kind, size } => ActionView::FindCover {
                link_id: *link_id as int,
                kind: kind@,
                size: size@,
            },
            Action::ReadCovers => ActionView::ReadCovers,
            Action::AddCovers { covers } => ActionView::AddCovers { covers: view_all(covers@) },
            Action::FindLyrics { song_id } => ActionView::FindLyrics { song_id: song_id@ },
            Action::AddLyrics { lines } => ActionView::AddLyrics { lines: view_all(lines@) },
            Action::Finish { summary } => ActionView::Finish { summary: summary@ },
            Action::Abort { error } => ActionView::Abort { error: error@ },
        }
    }
}

/// What the driver answers.
#[derive(Debug, Clone, PartialEq, Eq)]
pub enum Reply {
    /// The song that was looked up, if the store holds it.
    Song(Option<Metadata>),
    /// The album that was looked up, if the store holds it.
    Album(Option<Album>),
    /// The link between song and album, if the store holds it.
    AlbumSong(Option<AlbumSong>),
    /// The artist that was looked up, if the store holds it.
    Artist(Option<Artist>),
    /// The links of the song to artists that the store holds.
    ArtistSongs(Vec<ArtistSong>),
    /// Whether the store holds the cover.
    Found(bool),
    /// The covers derived from the images of the file.
    Images(Vec<crate::readmeta::Cover>),
    /// The number of rows counted, added or changed.
    Count(usize),
    /// The id that the store gave to the row it added.
    Id(i64),
    /// The store failed, with this message.
    Failed(String),
}

/// What a [`Reply`] says.
pub enum ReplyView {
    Song(Option<MetadataView>),
    Album(Option<AlbumView>),
    AlbumSong(Option<AlbumSongView>),
    Artist(Option<ArtistView>),
    ArtistSongs(Seq<ArtistSongView>),
    Found(bool),
    Images(Seq<ImageView>),
    Count(nat),
    Id(int),
    Failed(Seq<char>),
}

/// The view of a row that may be missing.
pub open spec fn view_of<T: View>(row: Option<T>) -> Option<T::V> {
    match row {
        Some(row) => Some(row@),
        None => None,
    }
}

impl View for Reply {
    type V = ReplyView;

    open spec fn view(&self) -> ReplyView {
        match self {
            Reply::Song(row) => ReplyView::Song(view_of(*row)),
            Reply::Album(row) => ReplyView::Album(view_of(*row)),
            Reply::AlbumSong(row) => ReplyView::AlbumSong(view_of(*row)),
            Reply::Artist(row) => ReplyView::Artist(view_of(*row)),
            Reply::ArtistSongs(rows) => ReplyView::ArtistSongs(view_all(rows@)),
            Reply::Found(found) => ReplyView::Found(*found),
            Reply::Images(images) => ReplyView::Images(view_all(images@)),
            Reply::Count(n) => ReplyView::Count(*n as nat),
            Reply::Id(id) => ReplyView::Id(*id as int),
            Reply::Failed(message) => ReplyView::Failed(message@),
        }
    }
}

/// The machine that reconciles one file.
pub struct Reconciler {
    /// What the machine waits for.
    pub phase: Phase,
    /// What was decoded of the file.
    pub decoded: MyMetadata,
    /// The row that the song gets where the store does not hold it yet.
    pub song: Metadata,
    /// Whether covers are wanted for this file.
    pub want_covers: bool,
    /// The id of the song in the store, once it is resolved.
    pub song_id: String,
    /// The id of the album in the store, once it is resolved.
    pub album_id: i64,
    /// The artists of the song.
    pub artists: Vec<Artist>,
    /// The place of the artist or cover that is being looked up.
    pub cursor: usize,
    /// The ids of the artists that are resolved.
    pub artist_ids: Vec<i64>,
    /// Whether the store holds the small cover.
    pub small: bool,
    /// The covers of the file, as rows.
    pub rows: Vec<Cover>,
    /// The covers that the store does not hold yet.
    pub kept: Vec<Cover>,
    /// The links between song and album that were added.
    pub album_songs: usize,
    /// The links between song and artists that were added.
    pub artist_songs: usize,
    /// The covers that were added.
    pub covers: usize,
    /// The lyric lines that were found or added.
    pub lyrics: usize,
}

/// What a [`Reconciler`] holds.
pub struct MachineView {
    pub phase: Phase,
    pub decoded: DecodedView,
    pub song: MetadataView,
    pub want_covers: bool,
    pub song_id: Seq<char>,
    pub album_id: int,
    pub artists: Seq<ArtistView>,
    pub cursor: nat,
    pub artist_ids: Seq<int>,
    pub small: bool,
    pub rows: Seq<CoverView>,
    pub kept: Seq<CoverView>,
    pub album_songs: nat,
    pub artist_songs: nat,
    pub covers: nat,
    pub lyrics: nat,
}

impl View for Reconciler {
    type V = MachineView;

    open spec fn view(&self) -> MachineView {
        MachineView {
            phase: self.phase,
            decoded: self.decoded@,
            song: self.song@,
            want_covers: self.want_covers,
            song_id: self.song_id@,
            album_id: self.album_id as int,
            artists: view_all(self.artists@),
            cursor: self.cursor as nat,
            artist_ids: Seq::new(self.artist_ids@.len(), |i: int| self.artist_ids@[i] as int),
            small: self.small,
            rows: view_all(self.rows@),
            kept: view_all(self.kept@),
            album_songs: self.album_songs as nat,
            artist_songs: self.artist_songs as nat,
            covers: self.covers as nat,
            lyrics: self.lyrics as nat,
        }
    }
}

/// The artist rows of a decoded file, none with an id yet.
pub open spec fn artists_of(d: DecodedView) -> Seq<ArtistView> {
    Seq::new(song_artists(d.artist).len(), |i: int| new_artist(song_artists(d.artist)[i]))
}

/// The machine at its start, and what it asks first: the lookup of the song.
pub open spec fn started(d: DecodedView, song: MetadataView, want_covers: bool) -> (
    MachineView,
    ActionView,
) {
    (
        MachineView {
            phase: Phase::SongLookup,
            decoded: d,
            song,
            want_covers,
            song_id: Seq::empty(),
            album_id: 0,
            artists: artists_of(d),
            cursor: 0,
            artist_ids: Seq::empty(),
            small: false,
            rows: Seq::empty(),
            kept: Seq::empty(),
            album_songs: 0,
            artist_songs: 0,
            covers: 0,
            lyrics: 0,
        },
        ActionView::FindSong { title: song.title, artist: song.artist },
    )
}

/// The machine gives up.
pub open spec fn aborted(m: MachineView, error: ErrorView) -> (MachineView, ActionView) {
    (MachineView { phase: Phase::Failed, ..m }, ActionView::Abort { error })
}

/// The song is resolved: the album is looked up.
pub open spec fn to_album(m: MachineView) -> (MachineView, ActionView) {
    (
        MachineView { phase: Phase::AlbumLookup, ..m },
        ActionView::FindAlbum { name: m.decoded.album },
    )
}

/// The album is resolved: its link to the song is looked up.
pub open spec fn to_album_song(m: MachineView) -> (MachineView, ActionView) {
    (
        MachineView { phase: Phase::AlbumSongLookup, ..m },
        ActionView::FindAlbumSong { song_id: m.song_id, album_id: m.album_id },
    )
}

/// The artist at the cursor is looked up or, past the last artist, the links
/// of the song.
pub open spec fn to_artist(m: MachineView) -> (MachineView, ActionView) {
    if m.cursor < m.artists.len() {
        (
            MachineView { phase: Phase::ArtistLookup, ..m },
            ActionView::FindArtist { name: m.artists[m.cursor as int].name },
        )
    } else {
        (
            MachineView { phase: Phase::LinkLookup, ..m },
            ActionView::FindArtistSongs { song_id: m.song_id },
        )
    }
}

/// The links that the song should have: one to each resolved artist.
pub open spec fn proposed_links(ids: Seq<int>, song_id: Seq<char>) -> Seq<ArtistSongView> {
    Seq::new(ids.len(), |i: int| ArtistSongView { artist_id: ids[i], song_id })
}

/// Tells whether a link is not among `existing`.
pub open spec fn is_missing(existing: Seq<ArtistSongView>) -> spec_fn(ArtistSongView) -> bool {
    |link: ArtistSongView| !existing.contains(link)
}

/// The links are resolved: the covers come next where they are wanted, else
/// the lyrics.
pub open spec fn to_covers(m: MachineView) -> (MachineView, ActionView) {
    if m.want_covers {
        (
            MachineView { phase: Phase::CoverSmall, ..m },
            ActionView::FindCover { link_id: m.album_id, kind: "album"@, size: "small"@ },
        )
    } else {
        to_lyrics(m)
    }
}

/// The cover at the cursor is looked up or, past the last one, the covers
/// that are missing are added.
pub open spec fn to_cover(m: MachineView) -> (MachineView, ActionView) {
    if m.cursor < m.rows.len() {
        (
            MachineView { phase: Phase::CoverEach, ..m },
            ActionView::FindCover {
                link_id: m.album_id,
                kind: "album"@,
                size: m.rows[m.cursor as int].size,
            },
        )
    } else {
        (MachineView { phase: Phase::CoverInsert, ..m }, ActionView::AddCovers { covers: m.kept })
    }
}

/// The covers are resolved: the lyric lines of the song are counted.
pub open spec fn to_lyrics(m: MachineView) -> (MachineView, ActionView) {
    (
        MachineView { phase: Phase::LyricLookup, ..m },
        ActionView::FindLyrics { song_id: m.song_id },
    )
}

/// What the machine reports at its end.
pub open spec fn summary_of(m: MachineView) -> SummaryView {
    SummaryView {
        song_id: m.song_id,
        album_id: m.album_id,
        album_songs: m.album_songs,
        artists: m.artist_ids.len(),
        artist_songs: m.artist_songs,
        covers: m.covers,
        lyrics: m.lyrics,
    }
}

/// The file is reconciled.
pub open spec fn finished(m: MachineView) -> (MachineView, ActionView) {
    (MachineView { phase: Phase::Done, ..m }, ActionView::Finish { summary: summary_of(m) })
}

/// Tells whether the bytes of an image can be encoded.
pub open spec fn is_encodable() -> spec_fn(ImageView) -> bool {
    |image: ImageView| payload_fits(image.bytes.len())
}

/// The rows of the covers of a file, kept for its album.
pub open spec fn cover_rows(images: Seq<ImageView>, album_id: int) -> Seq<CoverView> {
    Seq::new(images.len(), |i: int| new_cover(images[i], album_id, "album"@))
}

/// The lyric rows of a decoded file, for the song `song_id`.
pub open spec fn lyric_rows(d: DecodedView, song_id: Seq<char>) -> Seq<LyricView> {
    Seq::new(d.lyrics.len(), |i: int| new_lyric(d.lyrics[i], song_id))
}

/// One step of the machine: from where it stands and what the driver
/// answered, to where it stands next and what it asks next.
///
/// A failure of the store ends the reconciliation with that failure; what
/// was written before stays. A reply that does not answer the question ends
/// it too.
pub open spec fn next(m: MachineView, reply: ReplyView) -> (MachineView, ActionView) {
    match (m.phase, reply) {
        (Phase::Done, _) | (Phase::Failed, _) => aborted(m, ErrorView::UnexpectedReply),
        (_, ReplyView::Failed(message)) => aborted(m, ErrorView::Store(message)),
        (Phase::SongLookup, ReplyView::Song(None)) => (
            MachineView { phase: Phase::SongInsert, song_id: m.song.id, ..m },
            ActionView::AddSong { song: m.song },
        ),
        (Phase::SongLookup, ReplyView::Song(Some(row))) => if row.file_path != m.song.file_path {
            (
                MachineView { phase: Phase::SongMove, song_id: row.id, ..m },
                ActionView::MoveSong {
                    id: row.id,
                    file_name: m.song.file_name,
                    file_path: m.song.file_path,
                    file_url: m.song.file_url,
                },
            )
        } else {
            to_album(MachineView { song_id: row.id, ..m })
        },
        (Phase::SongInsert, ReplyView::Count(_)) => to_album(m),
        (Phase::SongMove, ReplyView::Count(_)) => to_album(m),
        (Phase::AlbumLookup, ReplyView::Album(Some(row))) => to_album_song(
            MachineView { album_id: row.id, ..m },
        ),
        (Phase::AlbumLookup, ReplyView::Album(None)) => (
            MachineView { phase: Phase::AlbumInsert, ..m },
            ActionView::AddAlbum { album: new_album(m.decoded) },
        ),
        (Phase::AlbumInsert, ReplyView::Id(id)) => to_album_song(MachineView { album_id: id, ..m }),
        (Phase::AlbumSongLookup, ReplyView::AlbumSong(Some(_))) => to_artist(
            MachineView { cursor: 0, ..m },
        ),
        (Phase::AlbumSongLookup, ReplyView::AlbumSong(None)) => (
            MachineView { phase: Phase::AlbumSongInsert, ..m },
            ActionView::AddAlbumSong { link: new_album_song(m.decoded, m.song_id, m.album_id) },
        ),
        (Phase::AlbumSongInsert, ReplyView::Count(n)) => to_artist(
            MachineView { cursor: 0, album_songs: n, ..m },
        ),
        (Phase::ArtistLookup, ReplyView::Artist(Some(row))) => if m.cursor >= m.artists.len() {
            aborted(m, ErrorView::UnexpectedReply)
        } else if row.id > 0 && !m.artist_ids.contains(row.id) {
            to_artist(
                MachineView { cursor: m.cursor + 1, artist_ids: m.artist_ids.push(row.id), ..m },
            )
        } else {
            to_artist(MachineView { cursor: m.cursor + 1, ..m })
        },
        (Phase::ArtistLookup, ReplyView::Artist(None)) => if m.cursor >= m.artists.len() {
            aborted(m, ErrorView::UnexpectedReply)
        } else {
            (
                MachineView { phase: Phase::ArtistInsert, ..m },
                ActionView::AddArtist { artist: m.artists[m.cursor as int] },
            )
        },
        (Phase::ArtistInsert, ReplyView::Id(id)) => if m.cursor >= m.artists.len() {
            aborted(m, ErrorView::UnexpectedReply)
        } else {
            to_artist(MachineView { cursor: m.cursor + 1, artist_ids: m.artist_ids.push(id), ..m })
        },
        (Phase::LinkLookup, ReplyView::ArtistSongs(existing)) => (
            MachineView { phase: Phase::LinkInsert, ..m },
            ActionView::AddArtistSongs {
                links: proposed_links(m.artist_ids, m.song_id).filter(is_missing(existing)),
            },
        ),
        (Phase::LinkInsert, ReplyView::Count(n)) => to_covers(
            MachineView { artist_songs: n, ..m },
        ),
        (Phase::CoverSmall, ReplyView::Found(found)) => (
            MachineView { phase: Phase::CoverMedium, small: found, ..m },
            ActionView::FindCover { link_id: m.album_id, kind: "album"@, size: "medium"@ },
        ),
        (Phase::CoverMedium, ReplyView::Found(found)) => if m.small && found {
            to_lyrics(MachineView { covers: 0, ..m })
        } else {
            (MachineView { phase: Phase::CoverRead, ..m }, ActionView::ReadCovers)
        },
        (Phase::CoverRead, ReplyView::Images(images)) => to_cover(
            MachineView {
                decoded: DecodedView { covers: images.filter(is_encodable()), ..m.decoded },
                rows: cover_rows(images.filter(is_encodable()), m.album_id),
                kept: Seq::empty(),
                cursor: 0,
                ..m
            },
        ),
        (Phase::CoverEach, ReplyView::Found(found)) => if m.cursor >= m.rows.len() {
            aborted(m, ErrorView::UnexpectedReply)
        } else if found {
            to_cover(MachineView { cursor: m.cursor + 1, ..m })
        } else {
            to_cover(
                MachineView { cursor: m.cursor + 1, kept: m.kept.push(m.rows[m.cursor as int]), ..m },
            )
        },
        (Phase::CoverInsert, ReplyView::Count(n)) => to_lyrics(MachineView { covers: n, ..m }),
        (Phase::LyricLookup, ReplyView::Count(n)) => if n > 0 {
            finished(MachineView { lyrics: n, ..m })
        } else {
            (
                MachineView { phase: Phase::LyricInsert, ..m },
                ActionView::AddLyrics { lines: lyric_rows(m.decoded, m.song_id) },
            )
        },
        (Phase::LyricInsert, ReplyView::Count(n)) => finished(MachineView { lyrics: n, ..m }),
        _ => aborted(m, ErrorView::UnexpectedReply),
    }
}

/// Tells whether `id` is among `ids`.
fn has_id(ids: &Vec<i64>, id: i64) -> (r: bool)
    ensures
        r == Seq::new(ids@.len(), |i: int| ids@[i] as int).contains(id as int),
{
    let ghost all = Seq::new(ids@.len(), |i: int| ids@[i] as int);
    let mut i: usize = 0;
    while i < ids.len()
        invariant
            i <= ids.len(),
            all == Seq::new(ids@.len(), |i: int| ids@[i] as int),
            forall|j: int| 0 <= j < i ==> all[j] != id as int,
        decreases ids.len() - i,
    {
        if ids[i] == id {
            assert(all[i as int] == id as int);
            return true;
        }
        i = i + 1;
    }
    false
}

/// Tells whether `link` is among `existing`.
fn has_link(existing: &Vec<ArtistSong>, link: &ArtistSong) -> (r: bool)
    ensures
        r == view_all(existing@).contains(link@),
{
    let ghost all = view_all(existing@);
    let mut i: usize = 0;
    while i < existing.len()
        invariant
            i <= existing.len(),
            all == view_all(existing@),
            forall|j: int| 0 <= j < i ==> all[j] != link@,
        decreases existing.len() - i,
    {
        if existing[i].artist_id == link.artist_id && existing[i].song_id == link.song_id {
            assert(all[i as int] == link@);
            return true;
        }
        i = i + 1;
    }
    false
}

/// The links of `proposed` that are not among `existing`.
fn missing_links(proposed: &Vec<ArtistSong>, existing: &Vec<ArtistSong>) -> (r: Vec<ArtistSong>)
    ensures
        view_all(r@) == view_all(proposed@).filter(is_missing(view_all(existing@))),
{
    let ghost all = view_all(proposed@);
    let ghost keep = is_missing(view_all(existing@));
    let mut out: Vec<ArtistSong> = Vec::new();
    let mut i: usize = 0;
    assert(all.take(0).filter(keep) == Seq::<ArtistSongView>::empty()) by {
        reveal(Seq::filter);
    }
    while i < proposed.len()
        invariant
            i <= proposed.len(),
            all == view_all(proposed@),
            keep == is_missing(view_all(existing@)),
            view_all(out@) == all.take(i as int).filter(keep),
        decreases proposed.len() - i,
    {
        let link = &proposed[i];
        proof {
            let front = all.take(i as int);
            assert(all.take(i + 1) == front.push(link@));
            front.lemma_filter_push(link@, keep);
        }
        if !has_link(existing, link) {
            let ghost before = view_all(out@);
            out.push(link.dup());
            assert(view_all(out@) == before.push(link@));
        }
        i = i + 1;
    }
    assert(all.take(i as int) == all);
    out
}

/// The images whose bytes can be encoded.
fn encodable_images(images: &Vec<crate::readmeta::Cover>) -> (r: Vec<crate::readmeta::Cover>)
    ensures
        view_all(r@) == view_all(images@).filter(is_encodable()),
        forall|i: int|
            0 <= i < r@.len() ==> payload_fits((#[trigger] view_all(r@)[i]).bytes.len()),
{
    let ghost all = view_all(images@);
    let ghost keep = is_encodable();
    let mut out: Vec<crate::readmeta::Cover> = Vec::new();
    let mut i: usize = 0;
    assert(all.take(0).filter(keep) == Seq::<ImageView>::empty()) by {
        reveal(Seq::filter);
    }
    while i < images.len()
        invariant
            i <= images.len(),
            all == view_all(images@),
            keep == is_encodable(),
            view_all(out@) == all.take(i as int).filter(keep),
            forall|j: int|
                0 <= j < out@.len() ==> payload_fits((#[trigger] view_all(out@)[j]).bytes.len()),
        decreases images.len() - i,
    {
        let image = &images[i];
        proof {
            let front = all.take(i as int);
            assert(all.take(i + 1) == front.push(image@));
            front.lemma_filter_push(image@, keep);
        }
        if image.base64.len() / 3 < usize::MAX / 4 {
            let ghost before = view_all(out@);
            out.push(image.dup());
            assert(view_all(out@) == before.push(image@));
        }
        i = i + 1;
    }
    assert(all.take(i as int) == all);
    out
}

impl Reconciler {
    /// The machine for one file, and what it asks first. `decoded` is what
    /// was decoded of the file, `song` the row that the song gets where the
    /// store does not hold it yet.
    pub fn start(decoded: MyMetadata, song: Metadata, want_covers: bool) -> (r: (
        Reconciler,
        Action,
    ))
        ensures
            (r.0@, r.1@) == started(decoded@, song@, want_covers),
    {
        let artists = decoded.build_artist();
        let action = Action::FindSong { title: song.title.clone(), artist: song.artist.clone() };
        let m = Reconciler {
            phase: Phase::SongLookup,
            decoded,
            song,
            want_covers,
            song_id: String::new(),
            album_id: 0,
            artists,
            cursor: 0,
            artist_ids: Vec::new(),
            small: false,
            rows: Vec::new(),
            kept: Vec::new(),
            album_songs: 0,
            artist_songs: 0,
            covers: 0,
            lyrics: 0,
        };
        assert(m@.artist_ids == Seq::<int>::empty());
        assert(m@.rows == Seq::<CoverView>::empty());
        assert(m@.kept == Seq::<CoverView>::empty());
        (m, action)
    }

    /// Tells whether the machine has ended, with or without success.
    pub fn is_over(&self) -> (r: bool)
        ensures
            r == (self@.phase == Phase::Done || self@.phase == Phase::Failed),
    {
        match self.phase {
            Phase::Done => true,
            Phase::Failed => true,
            _ => false,
        }
    }

    fn abort(self, error: ReconcileError) -> (r: (Reconciler, Action))
        ensures
            (r.0@, r.1@) == aborted(self@, error@),
    {
        let mut m = self;
        m.phase = Phase::Failed;
        (m, Action::Abort { error })
    }

    fn go_album(self) -> (r: (Reconciler, Action))
        ensures
            (r.0@, r.1@) == to_album(self@),
    {
        let mut m = self;
        m.phase = Phase::AlbumLookup;
        let name = m.decoded.album.clone();
        (m, Action::FindAlbum { name })
    }

    fn go_album_song(self) -> (r: (Reconciler, Action))
        ensures
            (r.0@, r.1@) == to_album_song(self@),
    {
        let mut m = self;
        m.phase = Phase::AlbumSongLookup;
        let song_id = m.song_id.clone();
        let album_id = m.album_id;
        (m, Action::FindAlbumSong { song_id, album_id })
    }

    fn go_artist(self) -> (r: (Reconciler, Action))
        ensures
            (r.0@, r.1@) == to_artist(self@),
    {
        let mut m = self;
        if m.cursor < m.artists.len() {
            m.phase = Phase::ArtistLookup;
            let name = m.artists[m.cursor].name.clone();
            assert(view_all(m.artists@)[m.cursor as int] == m.artists@[m.cursor as int]@);
            (m, Action::FindArtist { name })
        } else {
            m.phase = Phase::LinkLookup;
            let song_id = m.song_id.clone();
            (m, Action::FindArtistSongs { song_id })
        }
    }

    fn go_lyrics(self) -> (r: (Reconciler, Action))
        ensures
            (r.0@, r.1@) == to_lyrics(self@),
    {
        let mut m = self;
        m.phase = Phase::LyricLookup;
        let song_id = m.song_id.clone();
        (m, Action::FindLyrics { song_id })
    }

    fn go_covers(self) -> (r: (Reconciler, Action))
        ensures
            (r.0@, r.1@) == to_covers(self@),
    {
        if self.want_covers {
            let mut m = self;
            m.phase = Phase::CoverSmall;
            let link_id = m.album_id;
            (m, Action::FindCover { link_id, kind: "album".to_owned(), size: "small".to_owned() })
        } else {
            self.go_lyrics()
        }
    }

    fn go_cover(self) -> (r: (Reconciler, Action))
        ensures
            (r.0@, r.1@) == to_cover(self@),
    {
        let mut m = self;
        if m.cursor < m.rows.len() {
            m.phase = Phase::CoverEach;
            let link_id = m.album_id;
            let size = m.rows[m.cursor].size.clone();
            assert(view_all(m.rows@)[m.cursor as int] == m.rows@[m.cursor as int]@);
            (m, Action::FindCover { link_id, kind: "album".to_owned(), size })
        } else {
            m.phase = Phase::CoverInsert;
            let mut covers: Vec<Cover> = Vec::new();
            let mut i: usize = 0;
            while i < m.kept.len()
                invariant
                    i <= m.kept.len(),
                    covers@.len() == i,
                    forall|j: int| 0 <= j < i ==> (#[trigger] covers@[j])@ == m.kept@[j]@,
                decreases m.kept.len() - i,
            {
                covers.push(m.kept[i].dup());
                i = i + 1;
            }
            assert(view_all(covers@) == view_all(m.kept@));
            (m, Action::AddCovers { covers })
        }
    }

    fn finish(self) -> (r: (Reconciler, Action))
        ensures
            (r.0@, r.1@) == finished(self@),
    {
        let mut m = self;
        m.phase = Phase::Done;
        let summary = Summary {
            song_id: m.song_id.clone(),
            album_id: m.album_id,
            album_songs: m.album_songs,
            artists: m.artist_ids.len(),
            artist_songs: m.artist_songs,
            covers: m.covers,
            lyrics: m.lyrics,
        };
        (m, Action::Finish { summary })
    }

    fn on_song(self, found: Option<Metadata>) -> (r: (Reconciler, Action))
        requires
            self.phase == Phase::SongLookup,
        ensures
            (r.0@, r.1@) == next(self@, ReplyView::Song(view_of(found))),
    {
        let mut m = self;
        match found {
            None => {
                m.phase = Phase::SongInsert;
                m.song_id = m.song.id.clone();
                let song = m.song.dup();
                (m, Action::AddSong { song })
            },
            Some(row) => {
                if row.file_path != m.song.file_path {
                    m.phase = Phase::SongMove;
                    m.song_id = row.id.clone();
                    let action = Action::MoveSong {
                        id: row.id,
                        file_name: m.song.file_name.clone(),
                        file_path: m.song.file_path.clone(),
                        file_url: m.song.file_url.clone(),
                    };
                    (m, action)
                } else {
                    m.song_id = row.id;
                    m.go_album()
                }
            },
        }
    }

    fn on_album(self, found: Option<Album>) -> (r: (Reconciler, Action))
        requires
            self.phase == Phase::AlbumLookup,
        ensures
            (r.0@, r.1@) == next(self@, ReplyView::Album(view_of(found))),
    {
        let mut m = self;
        match found {
            Some(row) => {
                m.album_id = row.id;
                m.go_album_song()
            },
            None => {
                m.phase = Phase::AlbumInsert;
                let album = m.decoded.build_album();
                (m, Action::AddAlbum { album })
            },
        }
    }

    fn on_album_song(self, found: Option<AlbumSong>) -> (r: (Reconciler, Action))
        requires
            self.phase == Phase::AlbumSongLookup,
        ensures
            (r.0@, r.1@) == next(self@, ReplyView::AlbumSong(view_of(found))),
    {
        let mut m = self;
        match found {
            Some(_) => {
                m.cursor = 0;
                m.go_artist()
            },
            None => {
                m.phase = Phase::AlbumSongInsert;
                let link = m.decoded.build_album_song(m.song_id.as_str(), m.album_id);
                (m, Action::AddAlbumSong { link })
            },
        }
    }

    fn on_artist(self, found: Option<Artist>) -> (r: (Reconciler, Action))
        requires
            self.phase == Phase::ArtistLookup,
        ensures
            (r.0@, r.1@) == next(self@, ReplyView::Artist(view_of(found))),
    {
        if self.cursor >= self.artists.len() {
            return self.abort(ReconcileError::UnexpectedReply);
        }
        let mut m = self;
        match found {
            Some(row) => {
                if row.id > 0 && !has_id(&m.artist_ids, row.id) {
                    let ghost before = m@.artist_ids;
                    m.artist_ids.push(row.id);
                    assert(m@.artist_ids == before.push(row.id as int));
                }
                m.cursor = m.cursor + 1;
                m.go_artist()
            },
            None => {
                m.phase = Phase::ArtistInsert;
                let artist = m.artists[m.cursor].dup();
                assert(view_all(m.artists@)[m.cursor as int] == m.artists@[m.cursor as int]@);
                (m, Action::AddArtist { artist })
            },
        }
    }

    fn on_artist_id(self, id: i64) -> (r: (Reconciler, Action))
        requires
            self.phase == Phase::ArtistInsert,
        ensures
            (r.0@, r.1@) == next(self@, ReplyView::Id(id as int)),
    {
        if self.cursor >= self.artists.len() {
            return self.abort(ReconcileError::UnexpectedReply);
        }
        let mut m = self;
        let ghost before = m@.artist_ids;
        m.artist_ids.push(id);
        assert(m@.artist_ids == before.push(id as int));
        m.cursor = m.cursor + 1;
        m.go_artist()
    }

    fn on_links(self, existing: Vec<ArtistSong>) -> (r: (Reconciler, Action))
        requires
            self.phase == Phase::LinkLookup,
        ensures
            (r.0@, r.1@) == next(self@, ReplyView::ArtistSongs(view_all(existing@))),
    {
        let mut m = self;
        m.phase = Phase::LinkInsert;
        let proposed = m.decoded.build_artist_songs(m.song_id.as_str(), &m.artist_ids);
        assert(view_all(proposed@) == proposed_links(m@.artist_ids, m@.song_id));
        let links = missing_links(&proposed, &existing);
        (m, Action::AddArtistSongs { links })
    }

    fn on_medium(self, found: bool) -> (r: (Reconciler, Action))
        requires
            self.phase == Phase::CoverMedium,
        ensures
            (r.0@, r.1@) == next(self@, ReplyView::Found(found)),
    {
        let mut m = self;
        if m.small && found {
            m.covers = 0;
            m.go_lyrics()
        } else {
            m.phase = Phase::CoverRead;
            (m, Action::ReadCovers)
        }
    }

    fn on_images(self, images: Vec<crate::readmeta::Cover>) -> (r: (Reconciler, Action))
        requires
            self.phase == Phase::CoverRead,
        ensures
            (r.0@, r.1@) == next(self@, ReplyView::Images(view_all(images@))),
    {
        let mut m = self;
        m.decoded.covers = encodable_images(&images);
        m.rows = m.decoded.build_covers(m.album_id, "album");
        m.kept = Vec::new();
        m.cursor = 0;
        assert(m@.kept == Seq::<CoverView>::empty());
        assert(m@.rows == cover_rows(
            view_all(images@).filter(is_encodable()),
            self@.album_id,
        ));
        m.go_cover()
    }

    fn on_cover(self, found: bool) -> (r: (Reconciler, Action))
        requires
            self.phase == Phase::CoverEach,
        ensures
            (r.0@, r.1@) == next(self@, ReplyView::Found(found)),
    {
        if self.cursor >= self.rows.len() {
            return self.abort(ReconcileError::UnexpectedReply);
        }
        let mut m = self;
        if !found {
            let ghost before = m@.kept;
            let row = m.rows[m.cursor].dup();
            assert(view_all(m.rows@)[m.cursor as int] == m.rows@[m.cursor as int]@);
            m.kept.push(row);
            assert(m@.kept == before.push(row@));
        }
        m.cursor = m.cursor + 1;
        m.go_cover()
    }

    fn on_lyric_count(self, n: usize) -> (r: (Reconciler, Action))
        requires
            self.phase == Phase::LyricLookup,
        ensures
            (r.0@, r.1@) == next(self@, ReplyView::Count(n as nat)),
    {
        let mut m = self;
        if n > 0 {
            m.lyrics = n;
            m.finish()
        } else {
            m.phase = Phase::LyricInsert;
            let lines = m.decoded.build_lyrics(m.song_id.as_str());
            (m, Action::AddLyrics { lines })
        }
    }

    fn on_count(self, n: usize) -> (r: (Reconciler, Action))
        requires
            self.phase == Phase::SongInsert || self.phase == Phase::SongMove || self.phase
                == Phase::AlbumSongInsert || self.phase == Phase::LinkInsert || self.phase
                == Phase::CoverInsert || self.phase == Phase::LyricInsert,
        ensures
            (r.0@, r.1@) == next(self@, ReplyView::Count(n as nat)),
    {
        let mut m = self;
        match m.phase {
            Phase::SongInsert => m.go_album(),
            Phase::SongMove => m.go_album(),
            Phase::AlbumSongInsert => {
                m.cursor = 0;
                m.album_songs = n;
                m.go_artist()
            },
            Phase::LinkInsert => {
                m.artist_songs = n;
                m.go_covers()
            },
            Phase::CoverInsert => {
                m.covers = n;
                m.go_lyrics()
            },
            _ => {
                m.lyrics = n;
                m.finish()
            },
        }
    }

    /// One step of the machine: takes the reply to what it asked last and
    /// returns the machine after it, with what it asks next.
    pub fn step(self, reply: Reply) -> (r: (Reconciler, Action))
        ensures
            (r.0@, r.1@) == next(self@, reply@),
    {
        match self.phase {
            Phase::Done => {
                return self.abort(ReconcileError::UnexpectedReply);
            },
            Phase::Failed => {
                return self.abort(ReconcileError::UnexpectedReply);
            },
            _ => {},
        }
        match reply {
            Reply::Failed(message) => self.abort(ReconcileError::Store(message)),
            Reply::Song(found) => match self.phase {
                Phase::SongLookup => self.on_song(found),
                _ => self.abort(ReconcileError::UnexpectedReply),
            },
            Reply::Album(found) => match self.phase {
                Phase::AlbumLookup => self.on_album(found),
                _ => self.abort(ReconcileError::UnexpectedReply),
            },
            Reply::AlbumSong(found) => match self.phase {
                Phase::AlbumSongLookup => self.on_album_song(found),
                _ => self.abort(ReconcileError::UnexpectedReply),
            },
            Reply::Artist(found) => match self.phase {
                Phase::ArtistLookup => self.on_artist(found),
                _ => self.abort(ReconcileError::UnexpectedReply),
            },
            Reply::ArtistSongs(existing) => match self.phase {
                Phase::LinkLookup => self.on_links(existing),
                _ => self.abort(ReconcileError::UnexpectedReply),
            },
            Reply::Found(found) => match self.phase {
                Phase::CoverSmall => {
                    let mut m = self;
                    m.phase = Phase::CoverMedium;
                    m.small = found;
                    let link_id = m.album_id;
                    (
                        m,
                        Action::FindCover {
                            link_id,
                            kind: "album".to_owned(),
                            size: "medium".to_owned(),
                        },
                    )
                },
                Phase::CoverMedium => self.on_medium(found),
                Phase::CoverEach => self.on_cover(found),
                _ => self.abort(ReconcileError::UnexpectedReply),
            },
            Reply::Images(images) => match self.phase {
                Phase::CoverRead => self.on_images(images),
                _ => self.abort(ReconcileError::UnexpectedReply),
            },
            Reply::Count(n) => match self.phase {
                Phase::LyricLookup => self.on_lyric_count(n),
                Phase::SongInsert => self.on_count(n),
                Phase::SongMove => self.on_count(n),
                Phase::AlbumSongInsert => self.on_count(n),
                Phase::LinkInsert => self.on_count(n),
                Phase::CoverInsert => self.on_count(n),
                Phase::LyricInsert => self.on_count(n),
                _ => self.abort(ReconcileError::UnexpectedReply),
            },
            Reply::Id(id) => match self.phase {
                Phase::AlbumInsert => {
                    let mut m = self;
                    m.album_id = id;
                    m.go_album_song()
                },
                Phase::ArtistInsert => self.on_artist_id(id),
                _ => self.abort(ReconcileError::UnexpectedReply),
            },
        }
    }
}


} // verus!
