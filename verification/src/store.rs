//! What a store of the library holds, as mathematics, and a store in memory
//! that behaves so.
//!
//! A table is a sequence of rows in the order in which they were added. A
//! lookup returns the first row that fits. Albums and artists get the id that
//! follows the greatest one in their table.

use crate::database::service::{
    view_all, Album, AlbumSong, AlbumSongView, AlbumView, Artist, ArtistSong, ArtistSongView,
    ArtistView, Cover, CoverView, Lyric, LyricView, Metadata, MetadataView,
};
use crate::text::same_text;
use vstd::prelude::*;

verus! {

/// The first row of `rows` that satisfies `fits`.
pub open spec fn find<T>(rows: Seq<T>, fits: spec_fn(T) -> bool) -> Option<T>
    decreases rows.len(),
{
    if rows.len() == 0 {
        None
    } else {
        match find(rows.drop_last(), fits) {
            Some(row) => Some(row),
            None => if fits(rows.last()) {
                Some(rows.last())
            } else {
                None
            },
        }
    }
}

/// A lookup finds a row exactly when some row fits, and the row found fits
/// and stands in the table.
pub proof fn lemma_find<T>(rows: Seq<T>, fits: spec_fn(T) -> bool)
    ensures
        find(rows, fits) is None <==> forall|i: int| 0 <= i < rows.len() ==> !fits(rows[i]),
        find(rows, fits) is Some ==> fits(find(rows, fits)->0) && rows.contains(
            find(rows, fits)->0,
        ),
    decreases rows.len(),
{
    if rows.len() > 0 {
        let front = rows.drop_last();
        lemma_find(front, fits);
        if find(front, fits) is Some {
            let row = find(front, fits)->0;
            let i = choose|i: int| 0 <= i < front.len() && front[i] == row;
            assert(rows[i] == row);
        } else if fits(rows.last()) {
            assert(rows[rows.len() - 1] == rows.last());
        } else {
            assert forall|i: int| 0 <= i < rows.len() implies !fits(rows[i]) by {
                if i < front.len() {
                    assert(front[i] == rows[i]);
                }
            }
        }
    }
}

/// Rows that are added behind a table do not change what a lookup finds in
/// it; where it found nothing, it finds what it finds among the new rows.
pub proof fn lemma_find_add<T>(rows: Seq<T>, more: Seq<T>, fits: spec_fn(T) -> bool)
    ensures
        find(rows + more, fits) == if find(rows, fits) is Some {
            find(rows, fits)
        } else {
            find(more, fits)
        },
    decreases more.len(),
{
    if more.len() == 0 {
        assert(rows + more == rows);
    } else {
        lemma_find_add(rows, more.drop_last(), fits);
        assert((rows + more).drop_last() == rows + more.drop_last());
    }
}

/// The greatest of the numbers and zero.
pub open spec fn greatest(ids: Seq<int>) -> int
    decreases ids.len(),
{
    if ids.len() == 0 {
        0
    } else if ids.last() > greatest(ids.drop_last()) {
        ids.last()
    } else {
        greatest(ids.drop_last())
    }
}

/// No number of a sequence is above its greatest, which is not negative.
pub proof fn lemma_greatest(ids: Seq<int>)
    ensures
        greatest(ids) >= 0,
        forall|i: int| 0 <= i < ids.len() ==> ids[i] <= greatest(ids),
    decreases ids.len(),
{
    if ids.len() > 0 {
        lemma_greatest(ids.drop_last());
        assert forall|i: int| 0 <= i < ids.len() implies ids[i] <= greatest(ids) by {
            if i < ids.len() - 1 {
                assert(ids.drop_last()[i] == ids[i]);
            }
        }
    }
}

/// Tells whether a song has that title and artist.
pub open spec fn song_is(title: Seq<char>, artist: Seq<char>) -> spec_fn(MetadataView) -> bool {
    |row: MetadataView| row.title == title && row.artist == artist
}

/// Tells whether an album has that name.
pub open spec fn album_is(name: Seq<char>) -> spec_fn(AlbumView) -> bool {
    |row: AlbumView| row.name == name
}

/// Tells whether a link joins that song and that album.
pub open spec fn album_song_is(song_id: Seq<char>, album_id: int) -> spec_fn(AlbumSongView) -> bool {
    |row: AlbumSongView| row.song_id == song_id && row.album_id == album_id
}

/// Tells whether an artist has that name.
pub open spec fn artist_is(name: Seq<char>) -> spec_fn(ArtistView) -> bool {
    |row: ArtistView| row.name == name
}

/// Tells whether a link belongs to that song.
pub open spec fn link_of(song_id: Seq<char>) -> spec_fn(ArtistSongView) -> bool {
    |row: ArtistSongView| row.song_id == song_id
}

/// Tells whether a cover is kept for that id, under that kind, at that size.
pub open spec fn cover_is(link_id: int, kind: Seq<char>, size: Seq<char>) -> spec_fn(
    CoverView,
) -> bool {
    |row: CoverView| row.link_id == link_id && row.kind == kind && row.size == size
}

/// Tells whether a lyric line belongs to that song.
pub open spec fn lyric_of(song_id: Seq<char>) -> spec_fn(LyricView) -> bool {
    |row: LyricView| row.song_id == song_id
}

/// The ids of albums, in the order of the rows.
pub open spec fn album_ids(albums: Seq<AlbumView>) -> Seq<int> {
    Seq::new(albums.len(), |i: int| albums[i].id)
}

/// The ids of artists, in the order of the rows.
pub open spec fn artist_ids(artists: Seq<ArtistView>) -> Seq<int> {
    Seq::new(artists.len(), |i: int| artists[i].id)
}

/// The songs after the file of the song `id` was found at a new place: the
/// rows of that id get the new file name, path and address.
pub open spec fn moved(
    songs: Seq<MetadataView>,
    id: Seq<char>,
    file_name: Seq<char>,
    file_path: Seq<char>,
    file_url: Seq<char>,
) -> Seq<MetadataView> {
    Seq::new(
        songs.len(),
        |i: int|
            if songs[i].id == id {
                MetadataView { file_name, file_path, file_url, ..songs[i] }
            } else {
                songs[i]
            },
    )
}

/// The number of rows of the song `id`.
pub open spec fn count_moved(songs: Seq<MetadataView>, id: Seq<char>) -> nat {
    songs.filter(|row: MetadataView| row.id == id).len()
}

/// Tells whether a lyric line belongs to another song than that.
pub open spec fn lyric_of_other(song_id: Seq<char>) -> spec_fn(LyricView) -> bool {
    |row: LyricView| row.song_id != song_id
}

/// Tells whether a cover is kept for another id or under another kind.
pub open spec fn cover_of_other(link_id: int, kind: Seq<char>) -> spec_fn(CoverView) -> bool {
    |row: CoverView| !(row.link_id == link_id && row.kind == kind)
}

/// The tables of a store.
pub struct Store {
    pub songs: Seq<MetadataView>,
    pub albums: Seq<AlbumView>,
    pub album_songs: Seq<AlbumSongView>,
    pub artists: Seq<ArtistView>,
    pub artist_songs: Seq<ArtistSongView>,
    pub covers: Seq<CoverView>,
    pub lyrics: Seq<LyricView>,
    /// The number of covers that the store has room for.
    pub cover_limit: nat,
}

/// Tells whether the store has room for `more` covers. No cover needs no
/// room.
pub open spec fn has_cover_room(store: Store, more: nat) -> bool {
    more == 0 || store.covers.len() + more <= store.cover_limit
}

/// A store that holds nothing, with room for as many covers as the machine
/// can count.
pub open spec fn empty_store() -> Store {
    Store {
        songs: Seq::empty(),
        albums: Seq::empty(),
        album_songs: Seq::empty(),
        artists: Seq::empty(),
        artist_songs: Seq::empty(),
        covers: Seq::empty(),
        lyrics: Seq::empty(),
        cover_limit: usize::MAX as nat,
    }
}

/// A store in memory.
pub struct MemoryStore {
    pub songs: Vec<Metadata>,
    pub albums: Vec<Album>,
    pub album_songs: Vec<AlbumSong>,
    pub artists: Vec<Artist>,
    pub artist_songs: Vec<ArtistSong>,
    pub covers: Vec<Cover>,
    pub lyrics: Vec<Lyric>,
    /// The number of covers that the store has room for. A batch of covers
    /// that does not fit is refused whole.
    pub cover_limit: usize,
}

impl View for MemoryStore {
    type V = Store;

    open spec fn view(&self) -> Store {
        Store {
            songs: view_all(self.songs@),
            albums: view_all(self.albums@),
            album_songs: view_all(self.album_songs@),
            artists: view_all(self.artists@),
            artist_songs: view_all(self.artist_songs@),
            covers: view_all(self.covers@),
            lyrics: view_all(self.lyrics@),
            cover_limit: self.cover_limit as nat,
        }
    }
}

impl MemoryStore {
    /// A store that holds nothing.
    pub fn new() -> (r: MemoryStore)
        ensures
            r@ == empty_store(),
    {
        let r = MemoryStore {
            songs: Vec::new(),
            albums: Vec::new(),
            album_songs: Vec::new(),
            artists: Vec::new(),
            artist_songs: Vec::new(),
            covers: Vec::new(),
            lyrics: Vec::new(),
            cover_limit: usize::MAX,
        };
        assert(r@.songs == Seq::<MetadataView>::empty());
        assert(r@.albums == Seq::<AlbumView>::empty());
        assert(r@.album_songs == Seq::<AlbumSongView>::empty());
        assert(r@.artists == Seq::<ArtistView>::empty());
        assert(r@.artist_songs == Seq::<ArtistSongView>::empty());
        assert(r@.covers == Seq::<CoverView>::empty());
        assert(r@.lyrics == Seq::<LyricView>::empty());
        r
    }

    /// The first song of that title and artist.
    pub fn get_metadata_by_title_artist(&self, title: &str, artist: &str) -> (r: Option<Metadata>)
        ensures
            match r {
                Some(row) => find(self@.songs, song_is(title@, artist@)) == Some(row@),
                None => find(self@.songs, song_is(title@, artist@)) is None,
            },
    {
        let ghost rows = self@.songs;
        let ghost fits = song_is(title@, artist@);
        let mut i: usize = 0;
        while i < self.songs.len()
            invariant
                i <= self.songs.len(),
                rows == self@.songs,
                fits == song_is(title@, artist@),
                find(rows.take(i as int), fits) is None,
            decreases self.songs.len() - i,
        {
            let row = &self.songs[i];
            assert(rows.take(i + 1).drop_last() == rows.take(i as int));
            assert(rows.take(i + 1).last() == row@);
            if same_text(row.title.as_str(), title) && same_text(row.artist.as_str(), artist) {
                proof {
                    lemma_find_add(rows.take(i + 1), rows.skip(i + 1), fits);
                    assert(rows.take(i + 1) + rows.skip(i + 1) == rows);
                }
                return Some(row.dup());
            }
            i = i + 1;
        }
        assert(rows.take(i as int) == rows);
        None
    }

    /// Adds a song.
    pub fn add_metadata(&mut self, metadata: &Metadata)
        ensures
            final(self)@ == (Store { songs: old(self)@.songs.push(metadata@), ..old(self)@ }),
    {
        self.songs.push(metadata.dup());
        assert(view_all(self.songs@) == view_all(old(self).songs@).push(metadata@));
    }

    /// Gives the rows of the song `id` a new file name, path and address, and
    /// returns how many rows that were.
    pub fn set_metadata_by_id(
        &mut self,
        id: &str,
        file_name: &str,
        file_path: &str,
        file_url: &str,
    ) -> (r: usize)
        ensures
            final(self)@ == (Store {
                songs: moved(old(self)@.songs, id@, file_name@, file_path@, file_url@),
                ..old(self)@
            }),
            r == count_moved(old(self)@.songs, id@),
    {
        let ghost before = self@.songs;
        let ghost same = |row: MetadataView| row.id == id@;
        let n = self.songs.len();
        let mut out: Vec<Metadata> = Vec::new();
        let mut count: usize = 0;
        let mut i: usize = 0;
        assert(before.take(0).filter(same) == Seq::<MetadataView>::empty()) by {
            reveal(Seq::filter);
        }
        while i < n
            invariant
                i <= n,
                n == self.songs.len(),
                before == view_all(self.songs@),
                same == |row: MetadataView| row.id == id@,
                out@.len() == i,
                forall|j: int|
                    0 <= j < i ==> (#[trigger] out@[j])@ == moved(
                        before,
                        id@,
                        file_name@,
                        file_path@,
                        file_url@,
                    )[j],
                count == before.take(i as int).filter(same).len(),
                count <= i,
            decreases n - i,
        {
            let row = &self.songs[i];
            proof {
                let front = before.take(i as int);
                assert(before.take(i + 1) == front.push(row@));
                front.lemma_filter_push(row@, same);
            }
            let mut copy = row.dup();
            if same_text(row.id.as_str(), id) {
                copy.file_name = file_name.to_owned();
                copy.file_path = file_path.to_owned();
                copy.file_url = file_url.to_owned();
                count = count + 1;
            }
            out.push(copy);
            i = i + 1;
        }
        assert(before.take(n as int) == before);
        self.songs = out;
        assert(view_all(self.songs@) == moved(before, id@, file_name@, file_path@, file_url@));
        count
    }

    /// The first album of that name.
    pub fn get_album_by_name(&self, name: &str) -> (r: Option<Album>)
        ensures
            match r {
                Some(row) => find(self@.albums, album_is(name@)) == Some(row@),
                None => find(self@.albums, album_is(name@)) is None,
            },
    {
        let ghost rows = self@.albums;
        let ghost fits = album_is(name@);
        let mut i: usize = 0;
        while i < self.albums.len()
            invariant
                i <= self.albums.len(),
                rows == self@.albums,
                fits == album_is(name@),
                find(rows.take(i as int), fits) is None,
            decreases self.albums.len() - i,
        {
            let row = &self.albums[i];
            assert(rows.take(i + 1).drop_last() == rows.take(i as int));
            assert(rows.take(i + 1).last() == row@);
            if same_text(row.name.as_str(), name) {
                proof {
                    lemma_find_add(rows.take(i + 1), rows.skip(i + 1), fits);
                    assert(rows.take(i + 1) + rows.skip(i + 1) == rows);
                }
                return Some(row.dup());
            }
            i = i + 1;
        }
        assert(rows.take(i as int) == rows);
        None
    }

    /// The greatest id of an album, or zero.
    pub fn greatest_album_id(&self) -> (r: i64)
        ensures
            r == greatest(album_ids(self@.albums)),
    {
        let ghost ids = album_ids(self@.albums);
        let mut top: i64 = 0;
        let mut i: usize = 0;
        assert(ids.take(0) == Seq::<int>::empty());
        while i < self.albums.len()
            invariant
                i <= self.albums.len(),
                ids == album_ids(self@.albums),
                top == greatest(ids.take(i as int)),
            decreases self.albums.len() - i,
        {
            assert(ids.take(i + 1).drop_last() == ids.take(i as int));
            assert(ids.take(i + 1).last() == self.albums@[i as int].id);
            if self.albums[i].id > top {
                top = self.albums[i].id;
            }
            i = i + 1;
        }
        assert(ids.take(i as int) == ids);
        top
    }

    /// Adds an album under the id that follows the greatest one, and returns
    /// that id.
    pub fn add_album(&mut self, album: &Album) -> (r: i64)
        requires
            greatest(album_ids(old(self)@.albums)) < i64::MAX,
        ensures
            r == greatest(album_ids(old(self)@.albums)) + 1,
            final(self)@ == (Store {
                albums: old(self)@.albums.push(AlbumView { id: r as int, ..album@ }),
                ..old(self)@
            }),
    {
        let id = self.greatest_album_id() + 1;
        let mut row = album.dup();
        row.id = id;
        self.albums.push(row);
        assert(view_all(self.albums@) == view_all(old(self).albums@).push(
            AlbumView { id: id as int, ..album@ },
        ));
        id
    }

    /// The first link between that song and that album.
    pub fn album_song_by_id(&self, song_id: &str, album_id: i64) -> (r: Option<AlbumSong>)
        ensures
            match r {
                Some(row) => find(self@.album_songs, album_song_is(song_id@, album_id as int))
                    == Some(row@),
                None => find(self@.album_songs, album_song_is(song_id@, album_id as int)) is None,
            },
    {
        let ghost rows = self@.album_songs;
        let ghost fits = album_song_is(song_id@, album_id as int);
        let mut i: usize = 0;
        while i < self.album_songs.len()
            invariant
                i <= self.album_songs.len(),
                rows == self@.album_songs,
                fits == album_song_is(song_id@, album_id as int),
                find(rows.take(i as int), fits) is None,
            decreases self.album_songs.len() - i,
        {
            let row = &self.album_songs[i];
            assert(rows.take(i + 1).drop_last() == rows.take(i as int));
            assert(rows.take(i + 1).last() == row@);
            if same_text(row.song_id.as_str(), song_id) && row.album_id == album_id {
                proof {
                    lemma_find_add(rows.take(i + 1), rows.skip(i + 1), fits);
                    assert(rows.take(i + 1) + rows.skip(i + 1) == rows);
                }
                return Some(row.dup());
            }
            i = i + 1;
        }
        assert(rows.take(i as int) == rows);
        None
    }

    /// Adds a link between a song and an album, and returns the number of
    /// rows added, which is one.
    pub fn add_album_song(&mut self, album_song: &AlbumSong) -> (r: usize)
        ensures
            r == 1,
            final(self)@ == (Store {
                album_songs: old(self)@.album_songs.push(album_song@),
                ..old(self)@
            }),
    {
        self.album_songs.push(album_song.dup());
        assert(view_all(self.album_songs@) == view_all(old(self).album_songs@).push(album_song@));
        1
    }

    /// The first artist of that name.
    pub fn artist_by_name(&self, name: &str) -> (r: Option<Artist>)
        ensures
            match r {
                Some(row) => find(self@.artists, artist_is(name@)) == Some(row@),
                None => find(self@.artists, artist_is(name@)) is None,
            },
    {
        let ghost rows = self@.artists;
        let ghost fits = artist_is(name@);
        let mut i: usize = 0;
        while i < self.artists.len()
            invariant
                i <= self.artists.len(),
                rows == self@.artists,
                fits == artist_is(name@),
                find(rows.take(i as int), fits) is None,
            decreases self.artists.len() - i,
        {
            let row = &self.artists[i];
            assert(rows.take(i + 1).drop_last() == rows.take(i as int));
            assert(rows.take(i + 1).last() == row@);
            if same_text(row.name.as_str(), name) {
                proof {
                    lemma_find_add(rows.take(i + 1), rows.skip(i + 1), fits);
                    assert(rows.take(i + 1) + rows.skip(i + 1) == rows);
                }
                return Some(row.dup());
            }
            i = i + 1;
        }
        assert(rows.take(i as int) == rows);
        None
    }

    /// The greatest id of an artist, or zero.
    pub fn greatest_artist_id(&self) -> (r: i64)
        ensures
            r == greatest(artist_ids(self@.artists)),
    {
        let ghost ids = artist_ids(self@.artists);
        let mut top: i64 = 0;
        let mut i: usize = 0;
        assert(ids.take(0) == Seq::<int>::empty());
        while i < self.artists.len()
            invariant
                i <= self.artists.len(),
                ids == artist_ids(self@.artists),
                top == greatest(ids.take(i as int)),
            decreases self.artists.len() - i,
        {
            assert(ids.take(i + 1).drop_last() == ids.take(i as int));
            assert(ids.take(i + 1).last() == self.artists@[i as int].id);
            if self.artists[i].id > top {
                top = self.artists[i].id;
            }
            i = i + 1;
        }
        assert(ids.take(i as int) == ids);
        top
    }

    /// Adds an artist under the id that follows the greatest one, and returns
    /// that id.
    pub fn add_artist(&mut self, artist: &Artist) -> (r: i64)
        requires
            greatest(artist_ids(old(self)@.artists)) < i64::MAX,
        ensures
            r == greatest(artist_ids(old(self)@.artists)) + 1,
            final(self)@ == (Store {
                artists: old(self)@.artists.push(ArtistView { id: r as int, ..artist@ }),
                ..old(self)@
            }),
    {
        let id = self.greatest_artist_id() + 1;
        let mut row = artist.dup();
        row.id = id;
        self.artists.push(row);
        assert(view_all(self.artists@) == view_all(old(self).artists@).push(
            ArtistView { id: id as int, ..artist@ },
        ));
        id
    }

    /// The links of that song to its artists, in the order of the table.
    pub fn artist_song_by_song_id(&self, song_id: &str) -> (r: Vec<ArtistSong>)
        ensures
            view_all(r@) == self@.artist_songs.filter(link_of(song_id@)),
    {
        let ghost rows = self@.artist_songs;
        let ghost fits = link_of(song_id@);
        let mut out: Vec<ArtistSong> = Vec::new();
        let mut i: usize = 0;
        assert(rows.take(0).filter(fits) == Seq::<ArtistSongView>::empty()) by {
            reveal(Seq::filter);
        }
        while i < self.artist_songs.len()
            invariant
                i <= self.artist_songs.len(),
                rows == self@.artist_songs,
                fits == link_of(song_id@),
                view_all(out@) == rows.take(i as int).filter(fits),
            decreases self.artist_songs.len() - i,
        {
            let row = &self.artist_songs[i];
            proof {
                let front = rows.take(i as int);
                assert(rows.take(i + 1) == front.push(row@));
                front.lemma_filter_push(row@, fits);
            }
            if same_text(row.song_id.as_str(), song_id) {
                let ghost before = view_all(out@);
                out.push(row.dup());
                assert(view_all(out@) == before.push(row@));
            }
            i = i + 1;
        }
        assert(rows.take(i as int) == rows);
        out
    }

    /// Adds links between songs and artists, and returns their number.
    pub fn add_artist_songs(&mut self, artist_songs: &Vec<ArtistSong>) -> (r: usize)
        ensures
            r == artist_songs@.len(),
            final(self)@ == (Store {
                artist_songs: old(self)@.artist_songs + view_all(artist_songs@),
                ..old(self)@
            }),
    {
        let mut i: usize = 0;
        assert(view_all(artist_songs@).take(0) == Seq::<ArtistSongView>::empty());
        while i < artist_songs.len()
            invariant
                i <= artist_songs.len(),
                self@ == (Store {
                    artist_songs: old(self)@.artist_songs + view_all(artist_songs@).take(i as int),
                    ..old(self)@
                }),
            decreases artist_songs.len() - i,
        {
            let ghost before = view_all(self.artist_songs@);
            self.artist_songs.push(artist_songs[i].dup());
            assert(view_all(self.artist_songs@) == before.push(artist_songs@[i as int]@));
            assert(view_all(artist_songs@).take(i + 1) == view_all(artist_songs@).take(
                i as int,
            ).push(artist_songs@[i as int]@));
            i = i + 1;
        }
        assert(view_all(artist_songs@).take(i as int) == view_all(artist_songs@));
        artist_songs.len()
    }

    /// The first cover kept for that id, under that kind, at that size.
    pub fn get_cover(&self, link_id: i64, cover_type: &str, size: &str) -> (r: Option<Cover>)
        ensures
            match r {
                Some(row) => find(self@.covers, cover_is(link_id as int, cover_type@, size@))
                    == Some(row@),
                None => find(self@.covers, cover_is(link_id as int, cover_type@, size@)) is None,
            },
    {
        let ghost rows = self@.covers;
        let ghost fits = cover_is(link_id as int, cover_type@, size@);
        let mut i: usize = 0;
        while i < self.covers.len()
            invariant
                i <= self.covers.len(),
                rows == self@.covers,
                fits == cover_is(link_id as int, cover_type@, size@),
                find(rows.take(i as int), fits) is None,
            decreases self.covers.len() - i,
        {
            let row = &self.covers[i];
            assert(rows.take(i + 1).drop_last() == rows.take(i as int));
            assert(rows.take(i + 1).last() == row@);
            if row.link_id == link_id && same_text(row.kind.as_str(), cover_type) && same_text(
                row.size.as_str(),
                size,
            ) {
                proof {
                    lemma_find_add(rows.take(i + 1), rows.skip(i + 1), fits);
                    assert(rows.take(i + 1) + rows.skip(i + 1) == rows);
                }
                return Some(row.dup());
            }
            i = i + 1;
        }
        assert(rows.take(i as int) == rows);
        None
    }

    /// Tells whether the store has room for `more` covers.
    pub fn has_cover_room(&self, more: usize) -> (r: bool)
        ensures
            r == has_cover_room(self@, more as nat),
    {
        more == 0 || (self.covers.len() <= self.cover_limit && more <= self.cover_limit
            - self.covers.len())
    }

    /// Adds covers, all or none, and returns their number. None is added,
    /// and nothing is returned, where the store has no room for them.
    pub fn add_covers(&mut self, cover_list: &Vec<Cover>) -> (r: Option<usize>)
        ensures
            match r {
                Some(n) => {
                    &&& has_cover_room(old(self)@, cover_list@.len())
                    &&& n == cover_list@.len()
                    &&& final(self)@ == (Store {
                        covers: old(self)@.covers + view_all(cover_list@),
                        ..old(self)@
                    })
                },
                None => !has_cover_room(old(self)@, cover_list@.len()) && final(self)@ == old(
                    self,
                )@,
            },
    {
        if !self.has_cover_room(cover_list.len()) {
            return None;
        }
        let mut i: usize = 0;
        assert(view_all(cover_list@).take(0) == Seq::<CoverView>::empty());
        while i < cover_list.len()
            invariant
                i <= cover_list.len(),
                self@ == (Store {
                    covers: old(self)@.covers + view_all(cover_list@).take(i as int),
                    ..old(self)@
                }),
            decreases cover_list.len() - i,
        {
            let ghost before = view_all(self.covers@);
            self.covers.push(cover_list[i].dup());
            assert(view_all(self.covers@) == before.push(cover_list@[i as int]@));
            assert(view_all(cover_list@).take(i + 1) == view_all(cover_list@).take(i as int).push(
                cover_list@[i as int]@,
            ));
            i = i + 1;
        }
        assert(view_all(cover_list@).take(i as int) == view_all(cover_list@));
        Some(cover_list.len())
    }

    /// The lyric lines of that song, in the order of the table.
    pub fn get_lyric(&self, song_id: &str) -> (r: Vec<Lyric>)
        ensures
            view_all(r@) == self@.lyrics.filter(lyric_of(song_id@)),
    {
        let ghost rows = self@.lyrics;
        let ghost fits = lyric_of(song_id@);
        let mut out: Vec<Lyric> = Vec::new();
        let mut i: usize = 0;
        assert(rows.take(0).filter(fits) == Seq::<LyricView>::empty()) by {
            reveal(Seq::filter);
        }
        while i < self.lyrics.len()
            invariant
                i <= self.lyrics.len(),
                rows == self@.lyrics,
                fits == lyric_of(song_id@),
                view_all(out@) == rows.take(i as int).filter(fits),
            decreases self.lyrics.len() - i,
        {
            let row = &self.lyrics[i];
            proof {
                let front = rows.take(i as int);
                assert(rows.take(i + 1) == front.push(row@));
                front.lemma_filter_push(row@, fits);
            }
            if same_text(row.song_id.as_str(), song_id) {
                let ghost before = view_all(out@);
                out.push(row.dup());
                assert(view_all(out@) == before.push(row@));
            }
            i = i + 1;
        }
        assert(rows.take(i as int) == rows);
        out
    }

    /// Adds lyric lines, and returns their number.
    pub fn add_lyrics(&mut self, lyric_list: &Vec<Lyric>) -> (r: usize)
        ensures
            r == lyric_list@.len(),
            final(self)@ == (Store {
                lyrics: old(self)@.lyrics + view_all(lyric_list@),
                ..old(self)@
            }),
    {
        let mut i: usize = 0;
        assert(view_all(lyric_list@).take(0) == Seq::<LyricView>::empty());
        while i < lyric_list.len()
            invariant
                i <= lyric_list.len(),
                self@ == (Store {
                    lyrics: old(self)@.lyrics + view_all(lyric_list@).take(i as int),
                    ..old(self)@
                }),
            decreases lyric_list.len() - i,
        {
            let ghost before = view_all(self.lyrics@);
            self.lyrics.push(lyric_list[i].dup());
            assert(view_all(self.lyrics@) == before.push(lyric_list@[i as int]@));
            assert(view_all(lyric_list@).take(i + 1) == view_all(lyric_list@).take(i as int).push(
                lyric_list@[i as int]@,
            ));
            i = i + 1;
        }
        assert(view_all(lyric_list@).take(i as int) == view_all(lyric_list@));
        lyric_list.len()
    }

    /// Deletes the lyric lines of that song, and returns how many they were.
    /// The next scan of the file of the song adds its lines anew.
    pub fn del_lyrics(&mut self, song_id: &str) -> (r: usize)
        ensures
            final(self)@ == (Store {
                lyrics: old(self)@.lyrics.filter(lyric_of_other(song_id@)),
                ..old(self)@
            }),
            r == old(self)@.lyrics.len() - final(self)@.lyrics.len(),
    {
        let ghost rows = self@.lyrics;
        let ghost keep = lyric_of_other(song_id@);
        let n = self.lyrics.len();
        let mut kept: Vec<Lyric> = Vec::new();
        let mut i: usize = 0;
        assert(rows.take(0).filter(keep) == Seq::<LyricView>::empty()) by {
            reveal(Seq::filter);
        }
        while i < n
            invariant
                i <= n,
                n == self.lyrics.len(),
                rows == view_all(self.lyrics@),
                keep == lyric_of_other(song_id@),
                view_all(kept@) == rows.take(i as int).filter(keep),
                kept@.len() <= i,
            decreases n - i,
        {
            let row = &self.lyrics[i];
            proof {
                let front = rows.take(i as int);
                assert(rows.take(i + 1) == front.push(row@));
                front.lemma_filter_push(row@, keep);
            }
            if !same_text(row.song_id.as_str(), song_id) {
                let ghost before = view_all(kept@);
                kept.push(row.dup());
                assert(view_all(kept@) == before.push(row@));
            }
            i = i + 1;
        }
        assert(rows.take(n as int) == rows);
        let deleted = n - kept.len();
        self.lyrics = kept;
        deleted
    }

    /// Deletes the covers kept for that id under that kind, and returns how
    /// many they were. The next scan of a file of the album adds them anew.
    pub fn del_covers(&mut self, link_id: i64, cover_type: &str) -> (r: usize)
        ensures
            final(self)@ == (Store {
                covers: old(self)@.covers.filter(cover_of_other(link_id as int, cover_type@)),
                ..old(self)@
            }),
            r == old(self)@.covers.len() - final(self)@.covers.len(),
    {
        let ghost rows = self@.covers;
        let ghost keep = cover_of_other(link_id as int, cover_type@);
        let n = self.covers.len();
        let mut kept: Vec<Cover> = Vec::new();
        let mut i: usize = 0;
        assert(rows.take(0).filter(keep) == Seq::<CoverView>::empty()) by {
            reveal(Seq::filter);
        }
        while i < n
            invariant
                i <= n,
                n == self.covers.len(),
                rows == view_all(self.covers@),
                keep == cover_of_other(link_id as int, cover_type@),
                view_all(kept@) == rows.take(i as int).filter(keep),
                kept@.len() <= i,
            decreases n - i,
        {
            let row = &self.covers[i];
            proof {
                let front = rows.take(i as int);
                assert(rows.take(i + 1) == front.push(row@));
                front.lemma_filter_push(row@, keep);
            }
            if !(row.link_id == link_id && same_text(row.kind.as_str(), cover_type)) {
                let ghost before = view_all(kept@);
                kept.push(row.dup());
                assert(view_all(kept@) == before.push(row@));
            }
            i = i + 1;
        }
        assert(rows.take(n as int) == rows);
        let deleted = n - kept.len();
        self.covers = kept;
        deleted
    }
}

} // verus!
