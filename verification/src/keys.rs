//! The natural keys of the tables: what makes two rows the same thing.
//!
//! A store in which no two rows of a table have the same key stays so when a
//! file is reconciled with it.

use crate::database::service::{
    AlbumSongView, AlbumView, ArtistSongView, ArtistView, CoverView, MetadataView,
};
use crate::engine::{
    album_id_after, album_songs_after, albums_after, artists_after, covers_added, ids_after,
    is_absent, links_added, reads_covers, reconciled, song_id_after, songs_after, Input,
};
use crate::laws::lemma_ids_bounded;
use crate::readmeta::ImageView;
use crate::reconcile::{artists_of, cover_rows, is_encodable, is_missing, proposed_links};
use crate::store::{
    album_is, album_song_is, artist_ids, artist_is, cover_is, find, greatest, lemma_find, link_of,
    song_is, Store,
};
use vstd::prelude::*;

verus! {

/// Tells whether no two rows have the same key.
pub open spec fn distinct_by<T, K>(rows: Seq<T>, key: spec_fn(T) -> K) -> bool {
    forall|i: int, j: int| 0 <= i < j < rows.len() ==> key(rows[i]) != key(rows[j])
}

/// The key of a song: its title and artist.
pub open spec fn song_key() -> spec_fn(MetadataView) -> (Seq<char>, Seq<char>) {
    |row: MetadataView| (row.title, row.artist)
}

/// The key of an album: its name.
pub open spec fn album_key() -> spec_fn(AlbumView) -> Seq<char> {
    |row: AlbumView| row.name
}

/// The key of an artist: its name.
pub open spec fn artist_key() -> spec_fn(ArtistView) -> Seq<char> {
    |row: ArtistView| row.name
}

/// The key of a link between a song and an album: the two ids.
pub open spec fn album_song_key() -> spec_fn(AlbumSongView) -> (Seq<char>, int) {
    |row: AlbumSongView| (row.song_id, row.album_id)
}

/// The key of a link between a song and an artist: the two ids.
pub open spec fn artist_song_key() -> spec_fn(ArtistSongView) -> (Seq<char>, int) {
    |row: ArtistSongView| (row.song_id, row.artist_id)
}

/// The key of a cover: its kind, the id that it is kept for, and its size.
pub open spec fn cover_key() -> spec_fn(CoverView) -> (Seq<char>, int, Seq<char>) {
    |row: CoverView| (row.kind, row.link_id, row.size)
}

/// The size label of an image.
pub open spec fn image_size_label() -> spec_fn(ImageView) -> Seq<char> {
    |image: ImageView| image.size
}

/// Tells whether each table of a store holds at most one row for each key:
/// one song for a title and artist, one album and one artist for a name, one
/// link for a pair, one cover for a kind, an id and a size.
pub open spec fn is_keyed(store: Store) -> bool {
    &&& distinct_by(store.songs, song_key())
    &&& distinct_by(store.albums, album_key())
    &&& distinct_by(store.album_songs, album_song_key())
    &&& distinct_by(store.artists, artist_key())
    &&& distinct_by(store.artist_songs, artist_song_key())
    &&& distinct_by(store.covers, cover_key())
}

/// Every row that passes a filter is a row of the table.
proof fn lemma_filter_member<T>(rows: Seq<T>, keep: spec_fn(T) -> bool, i: int)
    requires
        0 <= i < rows.filter(keep).len(),
    ensures
        exists|j: int| 0 <= j < rows.len() && rows[j] == rows.filter(keep)[i],
    decreases rows.len(),
{
    reveal(Seq::filter);
    if rows.len() > 0 {
        let front = rows.drop_last();
        if i < front.filter(keep).len() {
            lemma_filter_member(front, keep, i);
            let j = choose|j: int| 0 <= j < front.len() && front[j] == front.filter(keep)[i];
            assert(rows[j] == rows.filter(keep)[i]);
        } else {
            assert(rows[rows.len() - 1] == rows.filter(keep)[i]);
        }
    }
}

/// What passes a filter has distinct keys where the table has.
proof fn lemma_distinct_filter<T, K>(rows: Seq<T>, key: spec_fn(T) -> K, keep: spec_fn(T) -> bool)
    requires
        distinct_by(rows, key),
    ensures
        distinct_by(rows.filter(keep), key),
    decreases rows.len(),
{
    reveal(Seq::filter);
    if rows.len() > 0 {
        let front = rows.drop_last();
        assert(distinct_by(front, key)) by {
            assert forall|i: int, j: int| 0 <= i < j < front.len() implies key(front[i]) != key(
                front[j],
            ) by {
                assert(front[i] == rows[i] && front[j] == rows[j]);
            }
        }
        lemma_distinct_filter(front, key, keep);
        let kept = front.filter(keep);
        if keep(rows.last()) {
            assert forall|i: int, j: int| 0 <= i < j < kept.len() + 1 implies key(
                kept.push(rows.last())[i],
            ) != key(kept.push(rows.last())[j]) by {
                if j == kept.len() {
                    lemma_filter_member(front, keep, i);
                    let at = choose|at: int| 0 <= at < front.len() && front[at] == kept[i];
                    assert(rows[at] == kept[i]);
                    assert(rows[rows.len() - 1] == rows.last());
                }
            }
        }
    }
}

/// Two tables with distinct keys, none of them in both, make one.
proof fn lemma_distinct_add<T, K>(a: Seq<T>, b: Seq<T>, key: spec_fn(T) -> K)
    requires
        distinct_by(a, key),
        distinct_by(b, key),
        forall|i: int, j: int| 0 <= i < a.len() && 0 <= j < b.len() ==> key(a[i]) != key(b[j]),
    ensures
        distinct_by(a + b, key),
{
    assert forall|i: int, j: int| 0 <= i < j < (a + b).len() implies key((a + b)[i]) != key(
        (a + b)[j],
    ) by {
        if j < a.len() {
        } else if i < a.len() {
            assert((a + b)[j] == b[j - a.len()]);
        } else {
            assert((a + b)[i] == b[i - a.len()]);
            assert((a + b)[j] == b[j - a.len()]);
        }
    }
}

/// A row whose key no row has makes no key double.
proof fn lemma_distinct_push<T, K>(rows: Seq<T>, row: T, key: spec_fn(T) -> K)
    requires
        distinct_by(rows, key),
        forall|i: int| 0 <= i < rows.len() ==> key(rows[i]) != key(row),
    ensures
        distinct_by(rows.push(row), key),
{
}

/// Resolving a song leaves one row for each title and artist.
proof fn lemma_songs_stay_keyed(songs: Seq<MetadataView>, song: MetadataView)
    requires
        distinct_by(songs, song_key()),
    ensures
        distinct_by(songs_after(songs, song), song_key()),
{
    let fits = song_is(song.title, song.artist);
    lemma_find(songs, fits);
    match find(songs, fits) {
        Some(row) => {},
        None => {
            assert forall|i: int| 0 <= i < songs.len() implies song_key()(songs[i]) != song_key()(
                song,
            ) by {
                assert(!fits(songs[i]));
            }
            lemma_distinct_push(songs, song, song_key());
        },
    }
}

/// Resolving an album leaves one row for each name.
proof fn lemma_albums_stay_keyed(albums: Seq<AlbumView>, d: crate::readmeta::DecodedView)
    requires
        distinct_by(albums, album_key()),
    ensures
        distinct_by(albums_after(albums, d), album_key()),
{
    let fits = album_is(d.album);
    lemma_find(albums, fits);
    if find(albums, fits) is None {
        assert forall|i: int| 0 <= i < albums.len() implies album_key()(albums[i]) != d.album by {
            assert(!fits(albums[i]));
        }
    }
}

/// Resolving the link between a song and an album leaves one row for each
/// pair.
proof fn lemma_album_songs_stay_keyed(
    links: Seq<AlbumSongView>,
    d: crate::readmeta::DecodedView,
    song_id: Seq<char>,
    album_id: int,
)
    requires
        distinct_by(links, album_song_key()),
    ensures
        distinct_by(album_songs_after(links, d, song_id, album_id), album_song_key()),
{
    let fits = album_song_is(song_id, album_id);
    lemma_find(links, fits);
    if find(links, fits) is None {
        assert forall|i: int| 0 <= i < links.len() implies album_song_key()(links[i]) != (
            song_id,
            album_id,
        ) by {
            assert(!fits(links[i]));
        }
    }
}

/// Resolving artists leaves one row for each name.
proof fn lemma_artists_stay_keyed(artists: Seq<ArtistView>, names: Seq<ArtistView>, n: nat)
    requires
        distinct_by(artists, artist_key()),
    ensures
        distinct_by(artists_after(artists, names, n), artist_key()),
    decreases n,
{
    if n > 0 {
        lemma_artists_stay_keyed(artists, names, (n - 1) as nat);
        let before = artists_after(artists, names, (n - 1) as nat);
        let fits = artist_is(names[n - 1].name);
        lemma_find(before, fits);
        if find(before, fits) is None {
            assert forall|i: int| 0 <= i < before.len() implies artist_key()(before[i]) != names[n
                - 1].name by {
                assert(!fits(before[i]));
            }
        }
    }
}

/// No id is resolved twice.
proof fn lemma_ids_differ(artists: Seq<ArtistView>, names: Seq<ArtistView>, n: nat)
    ensures
        ids_after(artists, names, n).no_duplicates(),
    decreases n,
{
    if n > 0 {
        let i = (n - 1) as nat;
        lemma_ids_differ(artists, names, i);
        lemma_ids_bounded(artists, names, i);
        let before = artists_after(artists, names, i);
        let ids = ids_after(artists, names, i);
        let now = ids_after(artists, names, n);
        let top = greatest(artist_ids(before));
        let fresh = if find(before, artist_is(names[i as int].name)) is Some {
            find(before, artist_is(names[i as int].name))->0.id
        } else {
            top + 1
        };
        if now != ids {
            assert(now == ids.push(fresh));
            assert forall|a: int, b: int| 0 <= a < now.len() && 0 <= b < now.len() && a
                != b implies now[a] != now[b] by {
                if a < ids.len() && b < ids.len() {
                    assert(now[a] == ids[a] && now[b] == ids[b]);
                } else if a < ids.len() {
                    assert(now[a] == ids[a]);
                } else {
                    assert(now[b] == ids[b]);
                }
            }
        }
    }
}

/// Adding the missing links of a song leaves one row for each pair.
proof fn lemma_links_stay_keyed(
    links: Seq<ArtistSongView>,
    song_id: Seq<char>,
    ids: Seq<int>,
)
    requires
        distinct_by(links, artist_song_key()),
        ids.no_duplicates(),
    ensures
        distinct_by(links + links_added(links, song_id, ids), artist_song_key()),
{
    let key = artist_song_key();
    let proposed = proposed_links(ids, song_id);
    let had = links.filter(link_of(song_id));
    let added = proposed.filter(is_missing(had));
    assert(distinct_by(proposed, key));
    lemma_distinct_filter(proposed, key, is_missing(had));
    assert forall|i: int, j: int| 0 <= i < links.len() && 0 <= j < added.len() implies key(
        links[i],
    ) != key(added[j]) by {
        proposed.lemma_filter_pred(is_missing(had), j);
        lemma_filter_member(proposed, is_missing(had), j);
        let at = choose|at: int| 0 <= at < proposed.len() && proposed[at] == added[j];
        if key(links[i]) == key(added[j]) {
            assert(links[i] == added[j]);
            links.lemma_filter_contains(link_of(song_id), i);
        }
    }
    lemma_distinct_add(links, added, key);
}

/// Adding the missing covers of a file leaves one row for each kind, id and
/// size, where the covers of the file differ in size.
proof fn lemma_covers_stay_keyed(
    covers: Seq<CoverView>,
    want_covers: bool,
    album_id: int,
    images: Seq<ImageView>,
)
    requires
        distinct_by(covers, cover_key()),
        distinct_by(images, image_size_label()),
    ensures
        distinct_by(covers + covers_added(covers, want_covers, album_id, images), cover_key()),
{
    let key = cover_key();
    let added = covers_added(covers, want_covers, album_id, images);
    if reads_covers(covers, want_covers, album_id) {
        let encodable = images.filter(is_encodable());
        lemma_distinct_filter(images, image_size_label(), is_encodable());
        let rows = cover_rows(encodable, album_id);
        assert(distinct_by(rows, key)) by {
            assert forall|i: int, j: int| 0 <= i < j < rows.len() implies key(rows[i]) != key(
                rows[j],
            ) by {
                assert(image_size_label()(encodable[i]) != image_size_label()(encodable[j]));
            }
        }
        lemma_distinct_filter(rows, key, is_absent(covers, album_id));
        assert forall|i: int, j: int| 0 <= i < covers.len() && 0 <= j < added.len() implies key(
            covers[i],
        ) != key(added[j]) by {
            rows.lemma_filter_pred(is_absent(covers, album_id), j);
            lemma_filter_member(rows, is_absent(covers, album_id), j);
            let at = choose|at: int| 0 <= at < rows.len() && rows[at] == added[j];
            let fits = cover_is(album_id, "album"@, added[j].size);
            lemma_find(covers, fits);
            if key(covers[i]) == key(added[j]) {
                assert(fits(covers[i]));
            }
        }
        lemma_distinct_add(covers, added, key);
    } else {
        assert(covers + added == covers);
    }
}

/// A store with one row for each key has one row for each key after a file
/// is reconciled with it, where the covers of the file differ in size: no
/// song, album, artist, link or cover is added twice.
pub proof fn lemma_keys_stay_unique(store: Store, input: Input)
    requires
        is_keyed(store),
        distinct_by(input.images, image_size_label()),
    ensures
        is_keyed(reconciled(store, input)),
{
    let d = input.decoded;
    let song_id = song_id_after(store.songs, input.song);
    let album_id = album_id_after(store.albums, d);
    let names = artists_of(d);
    lemma_songs_stay_keyed(store.songs, input.song);
    lemma_albums_stay_keyed(store.albums, d);
    lemma_album_songs_stay_keyed(store.album_songs, d, song_id, album_id);
    lemma_artists_stay_keyed(store.artists, names, names.len());
    lemma_ids_differ(store.artists, names, names.len());
    lemma_links_stay_keyed(
        store.artist_songs,
        song_id,
        ids_after(store.artists, names, names.len()),
    );
    lemma_covers_stay_keyed(store.covers, input.want_covers, album_id, input.images);
}

} // verus!
