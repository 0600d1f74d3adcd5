//! What the reconciliation of one file makes of a store, and the machine run
//! against a store in memory.

use crate::database::covert::{new_album, new_album_song};
use crate::database::service::{
    view_all, AlbumSongView, AlbumView, ArtistSongView, ArtistView, CoverView, LyricView,
    MetadataView,
};
use crate::database::service::Metadata;
use crate::readmeta::{Cover, DecodedView, ImageView, MyMetadata};
use crate::reconcile::{
    artists_of, cover_rows, is_encodable, is_missing, lyric_rows, next, proposed_links, summary_of,
    Action, ActionView, ErrorView, MachineView, Phase, ReconcileError, Reconciler, Reply,
    ReplyView, Summary, SummaryView,
};
use crate::store::{
    album_ids, album_is, album_song_is, artist_ids, artist_is, count_moved, cover_is, find,
    greatest, has_cover_room, lemma_find, lemma_find_add, lemma_greatest, link_of, lyric_of,
    moved, song_is, MemoryStore, Store,
};
use crate::text::same_text;
use vstd::prelude::*;

verus! {

/// What is reconciled with a store: what was decoded of a file, the row of
/// its song, whether covers are wanted, and the covers that reading the file
/// for them gives.
pub struct Input {
    pub decoded: DecodedView,
    pub song: MetadataView,
    pub want_covers: bool,
    pub images: Seq<ImageView>,
}

/// The id under which the store keeps the song afterwards: that of the row
/// with its title and artist, where there is one, else its own.
pub open spec fn song_id_after(songs: Seq<MetadataView>, song: MetadataView) -> Seq<char> {
    match find(songs, song_is(song.title, song.artist)) {
        Some(row) => row.id,
        None => song.id,
    }
}

/// The songs afterwards. A song that no row has the title and artist of is
/// added. Where a row has them but another path, the file has moved: the row
/// gets the new place and keeps its id.
pub open spec fn songs_after(songs: Seq<MetadataView>, song: MetadataView) -> Seq<MetadataView> {
    match find(songs, song_is(song.title, song.artist)) {
        Some(row) => if row.file_path != song.file_path {
            moved(songs, row.id, song.file_name, song.file_path, song.file_url)
        } else {
            songs
        },
        None => songs.push(song),
    }
}

/// The id of the album afterwards: that of the row with its name, where
/// there is one, else the next id.
pub open spec fn album_id_after(albums: Seq<AlbumView>, d: DecodedView) -> int {
    match find(albums, album_is(d.album)) {
        Some(row) => row.id,
        None => greatest(album_ids(albums)) + 1,
    }
}

/// The albums afterwards: the album is added where no row has its name.
pub open spec fn albums_after(albums: Seq<AlbumView>, d: DecodedView) -> Seq<AlbumView> {
    match find(albums, album_is(d.album)) {
        Some(_) => albums,
        None => albums.push(AlbumView { id: greatest(album_ids(albums)) + 1, ..new_album(d) }),
    }
}

/// The links between songs and albums afterwards: the link is added where it
/// is missing.
pub open spec fn album_songs_after(
    links: Seq<AlbumSongView>,
    d: DecodedView,
    song_id: Seq<char>,
    album_id: int,
) -> Seq<AlbumSongView> {
    match find(links, album_song_is(song_id, album_id)) {
        Some(_) => links,
        None => links.push(new_album_song(d, song_id, album_id)),
    }
}

/// The artists after the first `n` of `names` are resolved: each that no row
/// has the name of is added under the next id.
pub open spec fn artists_after(artists: Seq<ArtistView>, names: Seq<ArtistView>, n: nat) -> Seq<
    ArtistView,
>
    decreases n,
{
    if n == 0 {
        artists
    } else {
        let before = artists_after(artists, names, (n - 1) as nat);
        match find(before, artist_is(names[n - 1].name)) {
            Some(_) => before,
            None => before.push(
                ArtistView { id: greatest(artist_ids(before)) + 1, ..names[n - 1] },
            ),
        }
    }
}

/// The ids of the first `n` of `names`, each once, in the order in which
/// they are resolved. An id that is not positive is left out.
pub open spec fn ids_after(artists: Seq<ArtistView>, names: Seq<ArtistView>, n: nat) -> Seq<int>
    decreases n,
{
    if n == 0 {
        Seq::empty()
    } else {
        let before = artists_after(artists, names, (n - 1) as nat);
        let ids = ids_after(artists, names, (n - 1) as nat);
        match find(before, artist_is(names[n - 1].name)) {
            Some(row) => if row.id > 0 && !ids.contains(row.id) {
                ids.push(row.id)
            } else {
                ids
            },
            None => ids.push(greatest(artist_ids(before)) + 1),
        }
    }
}

/// The number of artists that are added once the first `n` of `names` are
/// resolved and until all are.
pub open spec fn artists_added(artists: Seq<ArtistView>, names: Seq<ArtistView>, n: nat) -> int {
    artists_after(artists, names, names.len()).len() - artists_after(artists, names, n).len()
}

/// Resolving more artists leaves no fewer rows.
pub proof fn lemma_artists_grow(artists: Seq<ArtistView>, names: Seq<ArtistView>, i: nat, n: nat)
    requires
        i <= n,
    ensures
        artists_after(artists, names, i).len() <= artists_after(artists, names, n).len(),
    decreases n,
{
    if i < n {
        lemma_artists_grow(artists, names, i, (n - 1) as nat);
    }
}

/// The links between songs and artists that are added: one to each artist,
/// but for those that the song has already.
pub open spec fn links_added(links: Seq<ArtistSongView>, song_id: Seq<char>, ids: Seq<int>) -> Seq<
    ArtistSongView,
> {
    proposed_links(ids, song_id).filter(is_missing(links.filter(link_of(song_id))))
}

/// Tells whether the store keeps a cover of that size for the album.
pub open spec fn has_cover(covers: Seq<CoverView>, album_id: int, size: Seq<char>) -> bool {
    find(covers, cover_is(album_id, "album"@, size)) is Some
}

/// Tells whether the store keeps both the small and the medium cover of the
/// album.
pub open spec fn has_both_covers(covers: Seq<CoverView>, album_id: int) -> bool {
    has_cover(covers, album_id, "small"@) && has_cover(covers, album_id, "medium"@)
}

/// Tells whether the store keeps no cover of the size of `row` for the album.
pub open spec fn is_absent(covers: Seq<CoverView>, album_id: int) -> spec_fn(CoverView) -> bool {
    |row: CoverView| !has_cover(covers, album_id, row.size)
}

/// Tells whether the file is read for its covers: they are wanted and the
/// store does not keep both sizes yet.
pub open spec fn reads_covers(covers: Seq<CoverView>, want_covers: bool, album_id: int) -> bool {
    want_covers && !has_both_covers(covers, album_id)
}

/// The covers that are added: those of the file whose size the store does
/// not keep, where the file is read for them at all.
pub open spec fn covers_added(
    covers: Seq<CoverView>,
    want_covers: bool,
    album_id: int,
    images: Seq<ImageView>,
) -> Seq<CoverView> {
    if reads_covers(covers, want_covers, album_id) {
        cover_rows(images.filter(is_encodable()), album_id).filter(is_absent(covers, album_id))
    } else {
        Seq::empty()
    }
}

/// The lyric lines that are added: those of the file, where the store holds
/// none of the song.
pub open spec fn lyrics_added(lyrics: Seq<LyricView>, d: DecodedView, song_id: Seq<char>) -> Seq<
    LyricView,
> {
    if lyrics.filter(lyric_of(song_id)).len() > 0 {
        Seq::empty()
    } else {
        lyric_rows(d, song_id)
    }
}

/// The store after one file is reconciled with it.
pub open spec fn reconciled(store: Store, input: Input) -> Store {
    let song_id = song_id_after(store.songs, input.song);
    let album_id = album_id_after(store.albums, input.decoded);
    let names = artists_of(input.decoded);
    Store {
        songs: songs_after(store.songs, input.song),
        albums: albums_after(store.albums, input.decoded),
        album_songs: album_songs_after(store.album_songs, input.decoded, song_id, album_id),
        artists: artists_after(store.artists, names, names.len()),
        artist_songs: store.artist_songs + links_added(
            store.artist_songs,
            song_id,
            ids_after(store.artists, names, names.len()),
        ),
        covers: store.covers + covers_added(
            store.covers,
            input.want_covers,
            album_id,
            input.images,
        ),
        lyrics: store.lyrics + lyrics_added(store.lyrics, input.decoded, song_id),
        cover_limit: store.cover_limit,
    }
}

/// The words with which a store refuses covers that it has no room for.
pub open spec fn no_room() -> Seq<char> {
    "no room for the covers"@
}

/// Tells whether the reconciliation of a file is given up because the store
/// refuses the covers: the file is read for covers, and the store has no
/// room for those that are to be added.
pub open spec fn refuses_covers(store: Store, input: Input) -> bool {
    let album_id = album_id_after(store.albums, input.decoded);
    reads_covers(store.covers, input.want_covers, album_id) && !has_cover_room(
        store,
        covers_added(store.covers, input.want_covers, album_id, input.images).len(),
    )
}

/// What the store holds when the covers are about to be added: all that the
/// steps before made of it, with the covers and lyrics that it started with.
/// It is what a reconciliation leaves that is given up for the covers.
pub open spec fn before_covers(start: Store, input: Input) -> Store {
    Store { covers: start.covers, lyrics: start.lyrics, ..reconciled(start, input) }
}

/// What the reconciliation of one file reports.
pub open spec fn summarized(store: Store, input: Input) -> SummaryView {
    let song_id = song_id_after(store.songs, input.song);
    let album_id = album_id_after(store.albums, input.decoded);
    let names = artists_of(input.decoded);
    let ids = ids_after(store.artists, names, names.len());
    SummaryView {
        song_id,
        album_id,
        album_songs: if find(store.album_songs, album_song_is(song_id, album_id)) is Some {
            0
        } else {
            1
        },
        artists: ids.len(),
        artist_songs: links_added(store.artist_songs, song_id, ids).len(),
        covers: covers_added(store.covers, input.want_covers, album_id, input.images).len(),
        lyrics: if store.lyrics.filter(lyric_of(song_id)).len() > 0 {
            store.lyrics.filter(lyric_of(song_id)).len()
        } else {
            lyric_rows(input.decoded, song_id).len()
        },
    }
}

/// What a store makes of a request, and what it answers. `images` are the
/// covers that reading the file gives. An action that ends the machine asks
/// nothing of the store.
pub open spec fn served(store: Store, action: ActionView, images: Seq<ImageView>) -> (
    Store,
    ReplyView,
) {
    match action {
        ActionView::FindSong { title, artist } => (
            store,
            ReplyView::Song(find(store.songs, song_is(title, artist))),
        ),
        ActionView::AddSong { song } => (
            Store { songs: store.songs.push(song), ..store },
            ReplyView::Count(1),
        ),
        ActionView::MoveSong { id, file_name, file_path, file_url } => (
            Store { songs: moved(store.songs, id, file_name, file_path, file_url), ..store },
            ReplyView::Count(count_moved(store.songs, id)),
        ),
        ActionView::FindAlbum { name } => (store, ReplyView::Album(find(store.albums, album_is(name)))),
        ActionView::AddAlbum { album } => (
            Store {
                albums: store.albums.push(
                    AlbumView { id: greatest(album_ids(store.albums)) + 1, ..album },
                ),
                ..store
            },
            ReplyView::Id(greatest(album_ids(store.albums)) + 1),
        ),
        ActionView::FindAlbumSong { song_id, album_id } => (
            store,
            ReplyView::AlbumSong(find(store.album_songs, album_song_is(song_id, album_id))),
        ),
        ActionView::AddAlbumSong { link } => (
            Store { album_songs: store.album_songs.push(link), ..store },
            ReplyView::Count(1),
        ),
        ActionView::FindArtist { name } => (
            store,
            ReplyView::Artist(find(store.artists, artist_is(name))),
        ),
        ActionView::AddArtist { artist } => (
            Store {
                artists: store.artists.push(
                    ArtistView { id: greatest(artist_ids(store.artists)) + 1, ..artist },
                ),
                ..store
            },
            ReplyView::Id(greatest(artist_ids(store.artists)) + 1),
        ),
        ActionView::FindArtistSongs { song_id } => (
            store,
            ReplyView::ArtistSongs(store.artist_songs.filter(link_of(song_id))),
        ),
        ActionView::AddArtistSongs { links } => (
            Store { artist_songs: store.artist_songs + links, ..store },
            ReplyView::Count(links.len()),
        ),
        ActionView::FindCover { link_id, kind, size } => (
            store,
            ReplyView::Found(find(store.covers, cover_is(link_id, kind, size)) is Some),
        ),
        ActionView::ReadCovers => (store, ReplyView::Images(images)),
        ActionView::AddCovers { covers } => if has_cover_room(store, covers.len()) {
            (Store { covers: store.covers + covers, ..store }, ReplyView::Count(covers.len()))
        } else {
            (store, ReplyView::Failed(no_room()))
        },
        ActionView::FindLyrics { song_id } => (
            store,
            ReplyView::Count(store.lyrics.filter(lyric_of(song_id)).len()),
        ),
        ActionView::AddLyrics { lines } => (
            Store { lyrics: store.lyrics + lines, ..store },
            ReplyView::Count(lines.len()),
        ),
        ActionView::Finish { summary } => (store, ReplyView::Failed(Seq::empty())),
        ActionView::Abort { error } => (store, ReplyView::Failed(Seq::empty())),
    }
}

/// Tells whether the store has an id left for what the action adds.
pub open spec fn has_room(store: Store, action: ActionView) -> bool {
    match action {
        ActionView::AddAlbum { album } => greatest(album_ids(store.albums)) < i64::MAX,
        ActionView::AddArtist { artist } => greatest(artist_ids(store.artists)) < i64::MAX,
        _ => true,
    }
}

impl MemoryStore {
    /// Does what the machine asks, and answers. `images` are handed back
    /// where the machine asks for the covers of the file.
    pub fn serve(&mut self, action: &Action, images: &Vec<Cover>) -> (r: Reply)
        requires
            has_room(old(self)@, action@),
        ensures
            (final(self)@, r@) == served(old(self)@, action@, view_all(images@)),
    {
        match action {
            Action::FindSong { title, artist } => Reply::Song(
                self.get_metadata_by_title_artist(title.as_str(), artist.as_str()),
            ),
            Action::AddSong { song } => {
                self.add_metadata(song);
                Reply::Count(1)
            },
            Action::MoveSong { id, file_name, file_path, file_url } => Reply::Count(
                self.set_metadata_by_id(
                    id.as_str(),
                    file_name.as_str(),
                    file_path.as_str(),
                    file_url.as_str(),
                ),
            ),
            Action::FindAlbum { name } => Reply::Album(self.get_album_by_name(name.as_str())),
            Action::AddAlbum { album } => Reply::Id(self.add_album(album)),
            Action::FindAlbumSong { song_id, album_id } => Reply::AlbumSong(
                self.album_song_by_id(song_id.as_str(), *album_id),
            ),
            Action::AddAlbumSong { link } => Reply::Count(self.add_album_song(link)),
            Action::FindArtist { name } => Reply::Artist(self.artist_by_name(name.as_str())),
            Action::AddArtist { artist } => Reply::Id(self.add_artist(artist)),
            Action::FindArtistSongs { song_id } => Reply::ArtistSongs(
                self.artist_song_by_song_id(song_id.as_str()),
            ),
            Action::AddArtistSongs { links } => Reply::Count(self.add_artist_songs(links)),
            Action::FindCover { link_id, kind, size } => {
                let found = self.get_cover(*link_id, kind.as_str(), size.as_str());
                Reply::Found(found.is_some())
            },
            Action::ReadCovers => {
                let mut copies: Vec<Cover> = Vec::new();
                let mut i: usize = 0;
                while i < images.len()
                    invariant
                        i <= images.len(),
                        copies@.len() == i,
                        forall|j: int| 0 <= j < i ==> (#[trigger] copies@[j])@ == images@[j]@,
                    decreases images.len() - i,
                {
                    copies.push(images[i].dup());
                    i = i + 1;
                }
                assert(view_all(copies@) == view_all(images@));
                Reply::Images(copies)
            },
            Action::AddCovers { covers } => match self.add_covers(covers) {
                Some(n) => Reply::Count(n),
                None => Reply::Failed("no room for the covers".to_owned()),
            },
            Action::FindLyrics { song_id } => Reply::Count(
                self.get_lyric(song_id.as_str()).len(),
            ),
            Action::AddLyrics { lines } => Reply::Count(self.add_lyrics(lines)),
            Action::Finish { summary } => Reply::Failed(String::new()),
            Action::Abort { error } => Reply::Failed(String::new()),
        }
    }
}

/// The place of a phase in the order of the steps.
pub open spec fn rank(phase: Phase) -> nat {
    match phase {
        Phase::SongLookup => 0,
        Phase::SongInsert => 1,
        Phase::SongMove => 2,
        Phase::AlbumLookup => 3,
        Phase::AlbumInsert => 4,
        Phase::AlbumSongLookup => 5,
        Phase::AlbumSongInsert => 6,
        Phase::ArtistLookup => 7,
        Phase::ArtistInsert => 8,
        Phase::LinkLookup => 9,
        Phase::LinkInsert => 10,
        Phase::CoverSmall => 11,
        Phase::CoverMedium => 12,
        Phase::CoverRead => 13,
        Phase::CoverEach => 14,
        Phase::CoverInsert => 15,
        Phase::LyricLookup => 16,
        Phase::LyricInsert => 17,
        Phase::Done => 18,
        Phase::Failed => 19,
    }
}

/// What a machine that was driven faithfully is asking, given where it
/// stands and what the store holds.
pub open spec fn pending(m: MachineView, store: Store) -> ActionView {
    match m.phase {
        Phase::SongLookup => ActionView::FindSong { title: m.song.title, artist: m.song.artist },
        Phase::SongInsert => ActionView::AddSong { song: m.song },
        Phase::SongMove => ActionView::MoveSong {
            id: m.song_id,
            file_name: m.song.file_name,
            file_path: m.song.file_path,
            file_url: m.song.file_url,
        },
        Phase::AlbumLookup => ActionView::FindAlbum { name: m.decoded.album },
        Phase::AlbumInsert => ActionView::AddAlbum { album: new_album(m.decoded) },
        Phase::AlbumSongLookup => ActionView::FindAlbumSong {
            song_id: m.song_id,
            album_id: m.album_id,
        },
        Phase::AlbumSongInsert => ActionView::AddAlbumSong {
            link: new_album_song(m.decoded, m.song_id, m.album_id),
        },
        Phase::ArtistLookup => ActionView::FindArtist { name: m.artists[m.cursor as int].name },
        Phase::ArtistInsert => ActionView::AddArtist { artist: m.artists[m.cursor as int] },
        Phase::LinkLookup => ActionView::FindArtistSongs { song_id: m.song_id },
        Phase::LinkInsert => ActionView::AddArtistSongs {
            links: links_added(store.artist_songs, m.song_id, m.artist_ids),
        },
        Phase::CoverSmall => ActionView::FindCover {
            link_id: m.album_id,
            kind: "album"@,
            size: "small"@,
        },
        Phase::CoverMedium => ActionView::FindCover {
            link_id: m.album_id,
            kind: "album"@,
            size: "medium"@,
        },
        Phase::CoverRead => ActionView::ReadCovers,
        Phase::CoverEach => ActionView::FindCover {
            link_id: m.album_id,
            kind: "album"@,
            size: m.rows[m.cursor as int].size,
        },
        Phase::CoverInsert => ActionView::AddCovers { covers: m.kept },
        Phase::LyricLookup => ActionView::FindLyrics { song_id: m.song_id },
        Phase::LyricInsert => ActionView::AddLyrics { lines: lyric_rows(m.decoded, m.song_id) },
        Phase::Done => ActionView::Finish { summary: summary_of(m) },
        Phase::Failed => ActionView::Abort { error: ErrorView::UnexpectedReply },
    }
}

/// The part of [`agrees`] on the song.
pub open spec fn song_agrees(m: MachineView, store: Store, start: Store, input: Input) -> bool {
    let found = find(start.songs, song_is(input.song.title, input.song.artist));
    &&& rank(m.phase) <= 2 ==> store.songs == start.songs
    &&& rank(m.phase) > 2 ==> store.songs == songs_after(start.songs, input.song)
    &&& rank(m.phase) >= 1 ==> m.song_id == song_id_after(start.songs, input.song)
    &&& m.phase == Phase::SongInsert ==> found is None
    &&& m.phase == Phase::SongMove ==> found is Some && found->0.file_path != input.song.file_path
}

/// The part of [`agrees`] on the album and its link to the song.
pub open spec fn album_agrees(m: MachineView, store: Store, start: Store, input: Input) -> bool {
    let song_id = song_id_after(start.songs, input.song);
    let album_id = album_id_after(start.albums, input.decoded);
    let link = find(start.album_songs, album_song_is(song_id, album_id));
    &&& rank(m.phase) <= 4 ==> store.albums == start.albums && (find(
        start.albums,
        album_is(input.decoded.album),
    ) is None ==> greatest(album_ids(start.albums)) < i64::MAX)
    &&& rank(m.phase) > 4 ==> store.albums == albums_after(start.albums, input.decoded)
    &&& rank(m.phase) >= 5 ==> m.album_id == album_id
    &&& m.phase == Phase::AlbumInsert ==> find(start.albums, album_is(input.decoded.album)) is None
    &&& rank(m.phase) <= 6 ==> store.album_songs == start.album_songs && m.album_songs == 0
    &&& rank(m.phase) > 6 ==> store.album_songs == album_songs_after(
        start.album_songs,
        input.decoded,
        song_id,
        album_id,
    ) && m.album_songs == summarized(start, input).album_songs
    &&& m.phase == Phase::AlbumSongInsert ==> link is None
}

/// The part of [`agrees`] on the artists and their links to the song.
pub open spec fn artist_agrees(m: MachineView, store: Store, start: Store, input: Input) -> bool {
    let names = artists_of(input.decoded);
    let song_id = song_id_after(start.songs, input.song);
    let ids = ids_after(start.artists, names, names.len());
    &&& rank(m.phase) < 7 ==> store.artists == start.artists && m.artist_ids == Seq::<int>::empty()
        && greatest(artist_ids(store.artists)) + artists_added(start.artists, names, 0) <= i64::MAX
    &&& 7 <= rank(m.phase) <= 8 ==> {
        &&& m.cursor < names.len()
        &&& store.artists == artists_after(start.artists, names, m.cursor)
        &&& m.artist_ids == ids_after(start.artists, names, m.cursor)
        &&& greatest(artist_ids(store.artists)) + artists_added(start.artists, names, m.cursor)
            <= i64::MAX
    }
    &&& rank(m.phase) > 8 ==> store.artists == artists_after(start.artists, names, names.len())
        && m.artist_ids == ids
    &&& m.phase == Phase::ArtistInsert ==> find(
        store.artists,
        artist_is(names[m.cursor as int].name),
    ) is None
    &&& rank(m.phase) <= 10 ==> store.artist_songs == start.artist_songs
    &&& rank(m.phase) > 10 ==> store.artist_songs == start.artist_songs + links_added(
        start.artist_songs,
        song_id,
        ids,
    ) && m.artist_songs == links_added(start.artist_songs, song_id, ids).len()
}

/// The part of [`agrees`] on the covers.
pub open spec fn cover_agrees(m: MachineView, store: Store, start: Store, input: Input) -> bool {
    let album_id = album_id_after(start.albums, input.decoded);
    let added = covers_added(start.covers, input.want_covers, album_id, input.images);
    &&& store.cover_limit == start.cover_limit
    &&& rank(m.phase) <= 15 ==> store.covers == start.covers && m.covers == 0
    &&& rank(m.phase) > 15 ==> store.covers == start.covers + added && m.covers == added.len()
        && !refuses_covers(start, input)
    &&& 11 <= rank(m.phase) <= 15 ==> input.want_covers
    &&& m.phase == Phase::CoverMedium ==> m.small == has_cover(start.covers, album_id, "small"@)
    &&& 13 <= rank(m.phase) <= 15 ==> !has_both_covers(start.covers, album_id)
    &&& 14 <= rank(m.phase) <= 15 ==> {
        &&& m.rows == cover_rows(input.images.filter(is_encodable()), album_id)
        &&& m.cursor <= m.rows.len()
        &&& m.kept == m.rows.take(m.cursor as int).filter(is_absent(start.covers, album_id))
    }
    &&& m.phase == Phase::CoverEach ==> m.cursor < m.rows.len()
    &&& m.phase == Phase::CoverInsert ==> m.cursor == m.rows.len()
}

/// The part of [`agrees`] on the lyrics.
pub open spec fn lyric_agrees(m: MachineView, store: Store, start: Store, input: Input) -> bool {
    let song_id = song_id_after(start.songs, input.song);
    &&& rank(m.phase) <= 17 ==> store.lyrics == start.lyrics
    &&& rank(m.phase) > 17 ==> store.lyrics == start.lyrics + lyrics_added(
        start.lyrics,
        input.decoded,
        song_id,
    ) && m.lyrics == summarized(start, input).lyrics
    &&& m.phase == Phase::LyricInsert ==> start.lyrics.filter(lyric_of(song_id)).len() == 0
}

/// Tells whether a machine and a store are where the reconciliation of
/// `input` with the store `start` brings them: what the steps before the
/// phase of the machine add is in the store, what they resolve is in the
/// machine, and nothing of the later steps is.
pub open spec fn agrees(
    m: MachineView,
    action: ActionView,
    store: Store,
    start: Store,
    input: Input,
) -> bool {
    &&& m.phase != Phase::Failed
    &&& action == pending(m, store)
    &&& m.song == input.song
    &&& m.want_covers == input.want_covers
    &&& m.artists == artists_of(input.decoded)
    &&& m.decoded == (DecodedView { covers: m.decoded.covers, ..input.decoded })
    &&& song_agrees(m, store, start, input)
    &&& album_agrees(m, store, start, input)
    &&& artist_agrees(m, store, start, input)
    &&& cover_agrees(m, store, start, input)
    &&& lyric_agrees(m, store, start, input)
}

/// A bound on the steps that a machine has before it.
pub open spec fn steps_left(m: MachineView, input: Input) -> nat {
    let images = input.images.len();
    let names = m.artists.len();
    let whole = 10 + images + 2 * names;
    match m.phase {
        Phase::SongLookup => whole + 6,
        Phase::SongInsert => whole + 5,
        Phase::SongMove => whole + 5,
        Phase::AlbumLookup => whole + 4,
        Phase::AlbumInsert => whole + 3,
        Phase::AlbumSongLookup => whole + 2,
        Phase::AlbumSongInsert => whole + 1,
        Phase::ArtistLookup => (10 + images + 2 * (names - m.cursor)) as nat,
        Phase::ArtistInsert => (9 + images + 2 * (names - m.cursor)) as nat,
        Phase::LinkLookup => 9 + images,
        Phase::LinkInsert => 8 + images,
        Phase::CoverSmall => 7 + images,
        Phase::CoverMedium => 6 + images,
        Phase::CoverRead => 5 + images,
        Phase::CoverEach => (4 + m.rows.len() - m.cursor) as nat,
        Phase::CoverInsert => 3,
        Phase::LyricLookup => 2,
        Phase::LyricInsert => 1,
        Phase::Done => 0,
        Phase::Failed => 0,
    }
}

/// The greatest id after a row with the next id is added is that id.
proof fn lemma_next_id(ids: Seq<int>)
    ensures
        greatest(ids.push(greatest(ids) + 1)) == greatest(ids) + 1,
{
    assert(ids.push(greatest(ids) + 1).drop_last() == ids);
}

/// A machine that agrees with the store still does after the store has
/// served what it asks and it has taken the reply; and it is nearer its end.
pub proof fn lemma_step_agrees(
    m: MachineView,
    action: ActionView,
    store: Store,
    start: Store,
    input: Input,
)
    requires
        agrees(m, action, store, start, input),
        m.phase != Phase::Done,
        !(m.phase == Phase::CoverInsert && refuses_covers(start, input)),
    ensures
        has_room(store, action),
        agrees(
            next(m, served(store, action, input.images).1).0,
            next(m, served(store, action, input.images).1).1,
            served(store, action, input.images).0,
            start,
            input,
        ),
        steps_left(next(m, served(store, action, input.images).1).0, input) < steps_left(m, input),
{
    let (store2, reply) = served(store, action, input.images);
    let (m2, action2) = next(m, reply);
    let names = artists_of(input.decoded);
    let song_id = song_id_after(start.songs, input.song);
    let album_id = album_id_after(start.albums, input.decoded);
    let encodable = input.images.filter(is_encodable());
    input.images.lemma_filter_len(is_encodable());
    match m.phase {
        Phase::ArtistLookup => {
            assert(((m.cursor + 1) - 1) as nat == m.cursor);
        },
        Phase::ArtistInsert => {
            let c = m.cursor;
            lemma_artists_grow(start.artists, names, c + 1, names.len());
            lemma_next_id(artist_ids(store.artists));
            assert(artist_ids(store2.artists) == artist_ids(store.artists).push(
                greatest(artist_ids(store.artists)) + 1,
            ));
            assert(((c + 1) - 1) as nat == c);
        },
        Phase::LinkInsert => {
            if !input.want_covers {
                assert(start.covers + Seq::<CoverView>::empty() == start.covers);
            }
        },
        Phase::CoverMedium => {
            if m.small && reply == ReplyView::Found(true) {
                assert(start.covers + Seq::<CoverView>::empty() == start.covers);
            }
        },
        Phase::CoverRead => {
            assert(m2.rows.take(0).filter(is_absent(start.covers, album_id)) == Seq::<
                CoverView,
            >::empty()) by {
                reveal(Seq::filter);
            }
            assert(m2.rows.len() == encodable.len());
        },
        Phase::CoverEach => {
            let c = m.cursor as int;
            assert(m.rows.take(c + 1) == m.rows.take(c).push(m.rows[c]));
            m.rows.take(c).lemma_filter_push(m.rows[c], is_absent(start.covers, album_id));
        },
        Phase::CoverInsert => {
            assert(m.rows.take(m.cursor as int) == m.rows);
        },
        Phase::LyricLookup => {
            if start.lyrics.filter(lyric_of(song_id)).len() > 0 {
                assert(start.lyrics + Seq::<LyricView>::empty() == start.lyrics);
            }
        },
        _ => {},
    }
}

/// Tells whether the store has the ids left that the reconciliation of a
/// decoded file needs: one for its album, where the store does not hold it,
/// and one for each of its artists that the store does not hold.
pub open spec fn has_ids_left(store: Store, d: DecodedView) -> bool {
    &&& find(store.albums, album_is(d.album)) is None ==> greatest(album_ids(store.albums))
        < i64::MAX
    &&& greatest(artist_ids(store.artists)) + artists_added(store.artists, artists_of(d), 0)
        <= i64::MAX
}

impl MemoryStore {
    /// Tells whether the store has the ids left that the reconciliation of a
    /// decoded file needs.
    pub fn has_ids_left(&self, decoded: &MyMetadata) -> (r: bool)
        ensures
            r == has_ids_left(self@, decoded@),
    {
        let start = self.artists.len();
        let names = decoded.build_artist();
        let ghost all = artists_of(decoded@);
        let ghost begin = self@.artists;
        let ghost mut rows: Seq<ArtistView> = Seq::empty();
        let mut fresh: Vec<String> = Vec::new();
        let mut i: usize = 0;
        assert(begin + rows == begin);
        while i < names.len()
            invariant
                i <= names.len(),
                all == artists_of(decoded@),
                all == view_all(names@),
                begin == self@.artists,
                artists_after(begin, all, i as nat) == begin + rows,
                rows.len() == fresh@.len(),
                fresh@.len() <= i,
                forall|k: int| 0 <= k < rows.len() ==> (#[trigger] rows[k]).name == fresh@[k]@,
            decreases names.len() - i,
        {
            let name = &names[i].name;
            let ghost fits = artist_is(name@);
            let ghost before = begin + rows;
            assert(all[i as int] == names@[i as int]@);
            assert(((i + 1) - 1) as nat == i as nat);
            let held = self.artist_by_name(name.as_str()).is_some();
            let mut drawn = false;
            let mut k: usize = 0;
            while k < fresh.len()
                invariant
                    k <= fresh.len(),
                    drawn == exists|j: int| 0 <= j < k && fresh@[j]@ == name@,
                decreases fresh.len() - k,
            {
                if same_text(fresh[k].as_str(), name.as_str()) {
                    drawn = true;
                }
                k = k + 1;
            }
            proof {
                lemma_find_add(begin, rows, fits);
                lemma_find(rows, fits);
                if drawn {
                    let j = choose|j: int| 0 <= j < fresh@.len() && fresh@[j]@ == name@;
                    assert(fits(rows[j]));
                } else {
                    assert forall|j: int| 0 <= j < rows.len() implies !fits(rows[j]) by {
                        assert(rows[j].name == fresh@[j]@);
                    }
                }
                assert(find(before, fits) is Some <==> held || drawn);
            }
            if !held && !drawn {
                proof {
                    let row = ArtistView { id: greatest(artist_ids(before)) + 1, ..all[i as int] };
                    assert(before.push(row) == begin + rows.push(row));
                    rows = rows.push(row);
                }
                fresh.push(name.clone());
            }
            i = i + 1;
        }
        let top = self.greatest_artist_id();
        proof {
            lemma_greatest(artist_ids(self@.artists));
            assert(artists_added(begin, all, 0) == fresh@.len()) by {
                assert(artists_after(begin, all, 0) == begin);
            }
        }
        let album = self.get_album_by_name(decoded.album.as_str()).is_some()
            || self.greatest_album_id() < i64::MAX;
        album && (fresh.len() as u64) <= (i64::MAX - top) as u64
    }
}

/// Where the store refuses the covers, the machine gives the reconciliation
/// up with that failure, and the store stays as the steps before left it.
pub proof fn lemma_step_refused(
    m: MachineView,
    action: ActionView,
    store: Store,
    start: Store,
    input: Input,
)
    requires
        agrees(m, action, store, start, input),
        m.phase == Phase::CoverInsert,
        refuses_covers(start, input),
    ensures
        has_room(store, action),
        action is AddCovers,
        served(store, action, input.images) == (store, ReplyView::Failed(no_room())),
        store == before_covers(start, input),
        next(m, ReplyView::Failed(no_room())).0.phase == Phase::Failed,
        next(m, ReplyView::Failed(no_room())).1 == (ActionView::Abort {
            error: ErrorView::Store(no_room()),
        }),
{
    assert(m.rows.take(m.cursor as int) == m.rows);
}

/// Reconciles one file with a store in memory: runs the machine against the
/// store until it ends. `images` are the covers that reading the file for
/// them gives. Where the store has no room for the covers that are to be
/// added, the reconciliation is given up with that failure: song, album,
/// artists and their links are written then, and neither cover nor lyric is.
pub fn reconcile_in_memory(
    store: &mut MemoryStore,
    decoded: MyMetadata,
    song: Metadata,
    want_covers: bool,
    images: &Vec<Cover>,
) -> (r: Result<Summary, ReconcileError>)
    requires
        has_ids_left(old(store)@, decoded@),
    ensures
        match r {
            Ok(summary) => {
                let input = Input {
                    decoded: decoded@,
                    song: song@,
                    want_covers,
                    images: view_all(images@),
                };
                &&& !refuses_covers(old(store)@, input)
                &&& final(store)@ == reconciled(old(store)@, input)
                &&& summary@ == summarized(old(store)@, input)
            },
            Err(error) => {
                let input = Input {
                    decoded: decoded@,
                    song: song@,
                    want_covers,
                    images: view_all(images@),
                };
                &&& refuses_covers(old(store)@, input)
                &&& final(store)@ == before_covers(old(store)@, input)
                &&& error@ == ErrorView::Store(no_room())
            },
        },
{
    let ghost start = store@;
    let ghost input = Input {
        decoded: decoded@,
        song: song@,
        want_covers,
        images: view_all(images@),
    };
    let (first, asked) = Reconciler::start(decoded, song, want_covers);
    let mut m = first;
    let mut action = asked;
    loop
        invariant
            start == old(store)@,
            input == (Input {
                decoded: decoded@,
                song: song@,
                want_covers,
                images: view_all(images@),
            }),
            agrees(m@, action@, store@, start, input),
        decreases steps_left(m@, input),
    {
        if let Action::Finish { summary } = action {
            assert(m@.phase == Phase::Done);
            assert(store@ == reconciled(start, input));
            return Ok(summary);
        }
        let ghost refused = m@.phase == Phase::CoverInsert && refuses_covers(start, input);
        proof {
            if refused {
                lemma_step_refused(m@, action@, store@, start, input);
            } else {
                lemma_step_agrees(m@, action@, store@, start, input);
            }
        }
        let reply = store.serve(&action, images);
        let (after, asks) = m.step(reply);
        m = after;
        action = asks;
        if let Action::Abort { error } = action {
            assert(refused);
            return Err(error);
        }
        assert(!refused);
    }
}

} // verus!
