//! What holds of every reconciliation.

use crate::database::covert::{artist_names, song_artists};
use crate::database::service::{
    AlbumSongView, AlbumView, ArtistSongView, ArtistView, CoverView, LyricView, MetadataView,
};
use crate::engine::{
    agrees, before_covers, refuses_covers, album_id_after, album_songs_after, albums_after, artists_after, covers_added,
    has_both_covers, has_cover, has_ids_left, ids_after, is_absent, links_added, lyrics_added,
    reads_covers, reconciled, song_id_after, songs_after, summarized, Input,
};
use crate::ingest::{file_input, refusal};
use crate::readmeta::{DecodedView, ImageView};
use crate::reconcile::{
    artists_of, cover_rows, is_encodable, is_missing, lyric_rows, next, proposed_links, started,
    ActionView, ErrorView, MachineView, Phase, ReplyView,
};
use crate::store::{
    album_is, album_song_is, artist_ids, artist_is, cover_is, cover_of_other, find, greatest,
    has_cover_room,
    lemma_find, lemma_find_add, lemma_greatest, link_of, lyric_of, lyric_of_other, moved, song_is,
    Store,
};
use crate::text::{
    find_from, is_blank, is_space, lemma_find_from, lemma_trim_empty_iff_blank, matches_at, split,
    words,
};
use vstd::prelude::*;

verus! {

/// A sequence of which no element passes a filter is filtered to nothing.
proof fn lemma_filter_none<T>(rows: Seq<T>, keep: spec_fn(T) -> bool)
    requires
        forall|i: int| 0 <= i < rows.len() ==> !keep(#[trigger] rows[i]),
    ensures
        rows.filter(keep) == Seq::<T>::empty(),
    decreases rows.len(),
{
    reveal(Seq::filter);
    if rows.len() > 0 {
        assert forall|i: int| 0 <= i < rows.drop_last().len() implies !keep(
            #[trigger] rows.drop_last()[i],
        ) by {
            assert(rows.drop_last()[i] == rows[i]);
        }
        lemma_filter_none(rows.drop_last(), keep);
    }
}

/// A sequence of which every element passes a filter is left as it is.
proof fn lemma_filter_all<T>(rows: Seq<T>, keep: spec_fn(T) -> bool)
    requires
        forall|i: int| 0 <= i < rows.len() ==> keep(#[trigger] rows[i]),
    ensures
        rows.filter(keep) == rows,
    decreases rows.len(),
{
    reveal(Seq::filter);
    if rows.len() > 0 {
        assert forall|i: int| 0 <= i < rows.drop_last().len() implies keep(
            #[trigger] rows.drop_last()[i],
        ) by {
            assert(rows.drop_last()[i] == rows[i]);
        }
        lemma_filter_all(rows.drop_last(), keep);
        assert(rows.drop_last().push(rows.last()) == rows);
    }
}

/// Moving a song changes neither the titles nor the artists: a lookup by
/// them finds the row at the same place, moved where it has the id.
proof fn lemma_find_moved(
    songs: Seq<MetadataView>,
    id: Seq<char>,
    file_name: Seq<char>,
    file_path: Seq<char>,
    file_url: Seq<char>,
    title: Seq<char>,
    artist: Seq<char>,
)
    ensures
        find(moved(songs, id, file_name, file_path, file_url), song_is(title, artist)) == match find(
            songs,
            song_is(title, artist),
        ) {
            Some(row) => Some(
                if row.id == id {
                    MetadataView { file_name, file_path, file_url, ..row }
                } else {
                    row
                },
            ),
            None => None,
        },
    decreases songs.len(),
{
    if songs.len() > 0 {
        lemma_find_moved(songs.drop_last(), id, file_name, file_path, file_url, title, artist);
        assert(moved(songs, id, file_name, file_path, file_url).drop_last() == moved(
            songs.drop_last(),
            id,
            file_name,
            file_path,
            file_url,
        ));
    }
}

/// After a song is resolved, the store holds a row of its title and artist
/// at its path, under the id that was resolved; a second song of that title,
/// artist and path changes nothing.
pub proof fn lemma_song_again(songs: Seq<MetadataView>, song: MetadataView, again: MetadataView)
    requires
        again.title == song.title,
        again.artist == song.artist,
        again.file_path == song.file_path,
    ensures
        find(songs_after(songs, song), song_is(song.title, song.artist)) is Some,
        find(songs_after(songs, song), song_is(song.title, song.artist))->0.file_path
            == song.file_path,
        songs_after(songs_after(songs, song), again) == songs_after(songs, song),
        song_id_after(songs_after(songs, song), again) == song_id_after(songs, song),
{
    let key = song_is(song.title, song.artist);
    match find(songs, key) {
        Some(row) => {
            if row.file_path != song.file_path {
                lemma_find_moved(
                    songs,
                    row.id,
                    song.file_name,
                    song.file_path,
                    song.file_url,
                    song.title,
                    song.artist,
                );
            }
        },
        None => {
            assert(songs.push(song).drop_last() == songs);
        },
    }
}

/// After an album is resolved, the store holds a row of its name under the
/// id that was resolved; resolving it again changes nothing.
pub proof fn lemma_album_again(albums: Seq<AlbumView>, d: DecodedView)
    ensures
        albums_after(albums_after(albums, d), d) == albums_after(albums, d),
        album_id_after(albums_after(albums, d), d) == album_id_after(albums, d),
{
    if find(albums, album_is(d.album)) is None {
        assert(albums_after(albums, d).drop_last() == albums);
    }
}

/// After the link between a song and an album is resolved, resolving it
/// again changes nothing.
pub proof fn lemma_album_song_again(
    links: Seq<AlbumSongView>,
    d: DecodedView,
    song_id: Seq<char>,
    album_id: int,
)
    ensures
        album_songs_after(album_songs_after(links, d, song_id, album_id), d, song_id, album_id)
            == album_songs_after(links, d, song_id, album_id),
{
    if find(links, album_song_is(song_id, album_id)) is None {
        assert(album_songs_after(links, d, song_id, album_id).drop_last() == links);
    }
}

/// The row under which the artist at place `i` of `names` is kept once it is
/// resolved: the first of its name or, where there is none, a new one.
pub open spec fn resolved_artist(artists: Seq<ArtistView>, names: Seq<ArtistView>, i: nat) -> ArtistView {
    let before = artists_after(artists, names, i);
    match find(before, artist_is(names[i as int].name)) {
        Some(row) => row,
        None => ArtistView { id: greatest(artist_ids(before)) + 1, ..names[i as int] },
    }
}

/// Resolving more artists only adds rows behind those that are there.
proof fn lemma_artists_extend(artists: Seq<ArtistView>, names: Seq<ArtistView>, i: nat, n: nat)
    requires
        i <= n,
    ensures
        artists_after(artists, names, i).is_prefix_of(artists_after(artists, names, n)),
    decreases n,
{
    if i < n {
        lemma_artists_extend(artists, names, i, (n - 1) as nat);
    }
}

/// No resolved id is above the greatest id in the table.
pub proof fn lemma_ids_bounded(artists: Seq<ArtistView>, names: Seq<ArtistView>, n: nat)
    ensures
        forall|k: int|
            0 <= k < ids_after(artists, names, n).len() ==> #[trigger] ids_after(
                artists,
                names,
                n,
            )[k] <= greatest(artist_ids(artists_after(artists, names, n))),
    decreases n,
{
    if n > 0 {
        let i = (n - 1) as nat;
        lemma_ids_bounded(artists, names, i);
        let before = artists_after(artists, names, i);
        let after = artists_after(artists, names, n);
        let ids = ids_after(artists, names, i);
        let now = ids_after(artists, names, n);
        let fits = artist_is(names[i as int].name);
        let top = greatest(artist_ids(before));
        lemma_greatest(artist_ids(before));
        match find(before, fits) {
            Some(row) => {
                lemma_find(before, fits);
                let at = choose|at: int| 0 <= at < before.len() && before[at] == row;
                assert(artist_ids(before)[at] == row.id);
                assert(after == before);
                assert forall|k: int| 0 <= k < now.len() implies #[trigger] now[k] <= top by {
                    if k < ids.len() {
                        assert(now[k] == ids[k]);
                    }
                }
            },
            None => {
                assert(after == before.push(ArtistView { id: top + 1, ..names[i as int] }));
                assert(artist_ids(after) == artist_ids(before).push(top + 1));
                assert(artist_ids(before).push(top + 1).drop_last() == artist_ids(before));
                assert(greatest(artist_ids(after)) == top + 1);
                assert(now == ids.push(top + 1));
                assert forall|k: int| 0 <= k < now.len() implies #[trigger] now[k] <= top + 1 by {
                    if k < ids.len() {
                        assert(now[k] == ids[k]);
                    }
                }
            },
        }
    }
}

/// Once the artist at place `i` is resolved, a lookup of its name finds the
/// row under which it is kept, however many more artists are resolved.
proof fn lemma_found_later(artists: Seq<ArtistView>, names: Seq<ArtistView>, i: nat, n: nat)
    requires
        i < n,
    ensures
        find(artists_after(artists, names, n), artist_is(names[i as int].name)) == Some(
            resolved_artist(artists, names, i),
        ),
{
    let before = artists_after(artists, names, i);
    let next = artists_after(artists, names, i + 1);
    let fits = artist_is(names[i as int].name);
    assert(((i + 1) - 1) as nat == i);
    if find(before, fits) is None {
        assert(next.drop_last() == before);
    }
    assert(find(next, fits) == Some(resolved_artist(artists, names, i)));
    lemma_artists_extend(artists, names, i + 1, n);
    let last = artists_after(artists, names, n);
    let more = last.skip(next.len() as int);
    assert(last == next + more);
    lemma_find_add(next, more, fits);
}

/// After `total` artists are resolved, resolving the first `n` of them again
/// changes nothing and gives the same ids.
proof fn lemma_artists_again(artists: Seq<ArtistView>, names: Seq<ArtistView>, total: nat, n: nat)
    requires
        n <= total,
    ensures
        artists_after(artists_after(artists, names, total), names, n) == artists_after(
            artists,
            names,
            total,
        ),
        ids_after(artists_after(artists, names, total), names, n) == ids_after(artists, names, n),
    decreases n,
{
    if n > 0 {
        let i = (n - 1) as nat;
        lemma_artists_again(artists, names, total, i);
        lemma_found_later(artists, names, i, total);
        lemma_ids_bounded(artists, names, i);
        lemma_greatest(artist_ids(artists_after(artists, names, i)));
    }
}

/// After the artists of a file are resolved, resolving them again changes
/// nothing and gives the same ids.
pub proof fn lemma_artist_again(artists: Seq<ArtistView>, d: DecodedView)
    ensures
        artists_after(
            artists_after(artists, artists_of(d), artists_of(d).len()),
            artists_of(d),
            artists_of(d).len(),
        ) == artists_after(artists, artists_of(d), artists_of(d).len()),
        ids_after(
            artists_after(artists, artists_of(d), artists_of(d).len()),
            artists_of(d),
            artists_of(d).len(),
        ) == ids_after(artists, artists_of(d), artists_of(d).len()),
{
    lemma_artists_again(artists, artists_of(d), artists_of(d).len(), artists_of(d).len());
}

/// After the links of a song to its artists are added, none is missing.
pub proof fn lemma_links_again(links: Seq<ArtistSongView>, song_id: Seq<char>, ids: Seq<int>)
    ensures
        links_added(links + links_added(links, song_id, ids), song_id, ids) == Seq::<
            ArtistSongView,
        >::empty(),
{
    let proposed = proposed_links(ids, song_id);
    let had = links.filter(link_of(song_id));
    let added = proposed.filter(is_missing(had));
    let has = (links + added).filter(link_of(song_id));
    Seq::filter_distributes_over_add(links, added, link_of(song_id));
    assert forall|i: int| 0 <= i < proposed.len() implies !is_missing(has)(
        #[trigger] proposed[i],
    ) by {
        let link = proposed[i];
        if had.contains(link) {
            let at = choose|at: int| 0 <= at < had.len() && had[at] == link;
            assert(has[at] == link);
        } else {
            proposed.lemma_filter_contains(is_missing(had), i);
            let at = choose|at: int| 0 <= at < added.len() && added[at] == link;
            added.lemma_filter_contains(link_of(song_id), at);
            let there = added.filter(link_of(song_id));
            let place = choose|place: int| 0 <= place < there.len() && there[place] == link;
            assert(has[had.len() + place] == link);
        }
    }
    lemma_filter_none(proposed, is_missing(has));
}

/// A cover that the store keeps, it still keeps after covers are added.
proof fn lemma_cover_stays(covers: Seq<CoverView>, more: Seq<CoverView>, album_id: int, size: Seq<char>)
    requires
        has_cover(covers, album_id, size),
    ensures
        has_cover(covers + more, album_id, size),
{
    lemma_find_add(covers, more, cover_is(album_id, "album"@, size));
}

/// After the covers of a file are added, none is missing.
pub proof fn lemma_covers_again(
    covers: Seq<CoverView>,
    want_covers: bool,
    album_id: int,
    images: Seq<ImageView>,
)
    ensures
        covers_added(
            covers + covers_added(covers, want_covers, album_id, images),
            want_covers,
            album_id,
            images,
        ) == Seq::<CoverView>::empty(),
{
    let added = covers_added(covers, want_covers, album_id, images);
    let after = covers + added;
    if reads_covers(after, want_covers, album_id) {
        if has_both_covers(covers, album_id) {
            lemma_cover_stays(covers, added, album_id, "small"@);
            lemma_cover_stays(covers, added, album_id, "medium"@);
        }
        let rows = cover_rows(images.filter(is_encodable()), album_id);
        assert(added == rows.filter(is_absent(covers, album_id)));
        assert forall|i: int| 0 <= i < rows.len() implies !is_absent(after, album_id)(
            #[trigger] rows[i],
        ) by {
            let row = rows[i];
            let fits = cover_is(album_id, "album"@, row.size);
            if has_cover(covers, album_id, row.size) {
                lemma_cover_stays(covers, added, album_id, row.size);
            } else {
                rows.lemma_filter_contains(is_absent(covers, album_id), i);
                let at = choose|at: int| 0 <= at < added.len() && added[at] == row;
                assert(after[covers.len() + at] == row);
                assert(fits(row));
                lemma_find(after, fits);
            }
        }
        lemma_filter_none(rows, is_absent(after, album_id));
    }
}

/// After the lyric lines of a song are added, no more are.
pub proof fn lemma_lyrics_again(lyrics: Seq<LyricView>, d: DecodedView, song_id: Seq<char>)
    ensures
        lyrics_added(lyrics + lyrics_added(lyrics, d, song_id), d, song_id) == Seq::<
            LyricView,
        >::empty(),
{
    let added = lyrics_added(lyrics, d, song_id);
    let rows = lyric_rows(d, song_id);
    Seq::filter_distributes_over_add(lyrics, added, lyric_of(song_id));
    if lyrics.filter(lyric_of(song_id)).len() == 0 {
        assert(added == rows);
        lemma_filter_all(rows, lyric_of(song_id));
        if rows.len() == 0 {
            assert(rows == Seq::<LyricView>::empty());
        }
    }
}

/// Reconciling a file a second time changes nothing: no row is added to
/// any table and none is changed. The second scan may propose another id
/// for the song, as a fresh one is drawn for each scan; the song keeps the id
/// that it has.
pub proof fn lemma_reconcile_is_idempotent(store: Store, input: Input, again: Input)
    requires
        again == (Input { song: MetadataView { id: again.song.id, ..input.song }, ..input }),
    ensures
        reconciled(reconciled(store, input), again) == reconciled(store, input),
{
    let once = reconciled(store, input);
    let d = input.decoded;
    let song_id = song_id_after(store.songs, input.song);
    let album_id = album_id_after(store.albums, d);
    let names = artists_of(d);
    let ids = ids_after(store.artists, names, names.len());
    lemma_song_again(store.songs, input.song, again.song);
    lemma_album_again(store.albums, d);
    lemma_album_song_again(store.album_songs, d, song_id, album_id);
    lemma_artist_again(store.artists, d);
    lemma_links_again(store.artist_songs, song_id, ids);
    lemma_covers_again(store.covers, input.want_covers, album_id, input.images);
    lemma_lyrics_again(store.lyrics, d, song_id);
    let twice = reconciled(once, again);
    assert(twice.artist_songs == once.artist_songs);
    assert(twice.covers == once.covers);
    assert(twice.lyrics == once.lyrics);
}


/// Moving a song changes neither the titles nor the artists, so as many rows
/// have a title and artist as before.
proof fn lemma_count_moved(
    songs: Seq<MetadataView>,
    id: Seq<char>,
    file_name: Seq<char>,
    file_path: Seq<char>,
    file_url: Seq<char>,
    title: Seq<char>,
    artist: Seq<char>,
)
    ensures
        moved(songs, id, file_name, file_path, file_url).filter(song_is(title, artist)).len()
            == songs.filter(song_is(title, artist)).len(),
    decreases songs.len(),
{
    let key = song_is(title, artist);
    let after = moved(songs, id, file_name, file_path, file_url);
    if songs.len() == 0 {
        assert(after == songs);
    } else {
        let front = songs.drop_last();
        lemma_count_moved(front, id, file_name, file_path, file_url, title, artist);
        let moved_front = moved(front, id, file_name, file_path, file_url);
        assert(after == moved_front.push(after.last()));
        assert(songs == front.push(songs.last()));
        moved_front.lemma_filter_push(after.last(), key);
        front.lemma_filter_push(songs.last(), key);
    }
}

/// Resolving a song leaves as many rows of its title and artist as there
/// were, and one where there was none.
proof fn lemma_count_songs(songs: Seq<MetadataView>, song: MetadataView)
    ensures
        songs_after(songs, song).filter(song_is(song.title, song.artist)).len() == if find(
            songs,
            song_is(song.title, song.artist),
        ) is Some {
            songs.filter(song_is(song.title, song.artist)).len()
        } else {
            1
        },
{
    let key = song_is(song.title, song.artist);
    match find(songs, key) {
        Some(row) => {
            lemma_count_moved(
                songs,
                row.id,
                song.file_name,
                song.file_path,
                song.file_url,
                song.title,
                song.artist,
            );
        },
        None => {
            lemma_find(songs, key);
            lemma_filter_none(songs, key);
            songs.lemma_filter_push(song, key);
        },
    }
}

/// Two files whose songs have the same title and artist are kept as one
/// song. Reconciling the second adds no song: the row of the first keeps its
/// id and, where the path differs, gets the file name, path and address of
/// the second. Where the store held no song of that title and artist before
/// the first file, it holds exactly one after the second.
pub proof fn lemma_one_song_for_two_files(store: Store, first: Input, second: Input)
    requires
        second.song.title == first.song.title,
        second.song.artist == first.song.artist,
    ensures
        ({
            let key = song_is(first.song.title, first.song.artist);
            let once = reconciled(store, first).songs;
            let twice = reconciled(reconciled(store, first), second).songs;
            &&& twice.len() == once.len()
            &&& find(once, key) is Some
            &&& find(twice, key) is Some
            &&& find(twice, key)->0.id == find(once, key)->0.id
            &&& find(twice, key)->0.id == song_id_after(store.songs, first.song)
            &&& find(twice, key)->0.file_path == second.song.file_path
            &&& find(once, key)->0.file_path != second.song.file_path ==> find(twice, key)->0
                == (MetadataView {
                file_name: second.song.file_name,
                file_path: second.song.file_path,
                file_url: second.song.file_url,
                ..find(once, key)->0
            })
            &&& find(once, key)->0.file_path == second.song.file_path ==> twice == once
            &&& find(store.songs, key) is None ==> twice.filter(key).len() == 1
        }),
{
    let key = song_is(first.song.title, first.song.artist);
    let once = reconciled(store, first).songs;
    lemma_song_again(store.songs, first.song, first.song);
    let row = find(once, key)->0;
    if row.file_path != second.song.file_path {
        lemma_find_moved(
            once,
            row.id,
            second.song.file_name,
            second.song.file_path,
            second.song.file_url,
            second.song.title,
            second.song.artist,
        );
    }
    lemma_count_songs(store.songs, first.song);
    lemma_count_songs(once, second.song);
}

/// The machine at its start agrees with the store that it is started on.
pub proof fn lemma_start_agrees(store: Store, input: Input)
    requires
        has_ids_left(store, input.decoded),
    ensures
        agrees(
            started(input.decoded, input.song, input.want_covers).0,
            started(input.decoded, input.song, input.want_covers).1,
            store,
            store,
            input,
        ),
{
}

/// Where the store keeps both the small and the medium cover of the album,
/// a reconciliation neither reads the file for covers nor adds any: at
/// every step of a machine that is driven by the store, what it asks is
/// neither, and the covers of the store are those that it started with.
pub proof fn lemma_known_covers_are_not_read(
    m: MachineView,
    action: ActionView,
    store: Store,
    start: Store,
    input: Input,
)
    requires
        agrees(m, action, store, start, input),
        has_both_covers(start.covers, album_id_after(start.albums, input.decoded)),
    ensures
        !(action is ReadCovers),
        !(action is AddCovers),
        store.covers == start.covers,
        reconciled(start, input).covers == start.covers,
{
    assert(start.covers + Seq::<CoverView>::empty() == start.covers);
}

/// Where the store fails to add the covers, the reconciliation is given up
/// with that failure, and song, album, artists and their links stay as they
/// were resolved. A later scan of the same file then adds what is missing
/// and touches nothing else: the store ends as if nothing had failed.
pub proof fn lemma_rescan_completes(
    m: MachineView,
    action: ActionView,
    store: Store,
    start: Store,
    input: Input,
    again: Input,
    message: Seq<char>,
)
    requires
        agrees(m, action, store, start, input),
        m.phase == Phase::CoverInsert,
        again == (Input { song: MetadataView { id: again.song.id, ..input.song }, ..input }),
    ensures
        action is AddCovers,
        next(m, ReplyView::Failed(message)).1 == (ActionView::Abort {
            error: ErrorView::Store(message),
        }),
        store == before_covers(start, input),
        reconciled(store, again).songs == store.songs,
        reconciled(store, again).albums == store.albums,
        reconciled(store, again).album_songs == store.album_songs,
        reconciled(store, again).artists == store.artists,
        reconciled(store, again).artist_songs == store.artist_songs,
        reconciled(store, again) == reconciled(start, input),
{
    let d = input.decoded;
    let song_id = song_id_after(start.songs, input.song);
    let album_id = album_id_after(start.albums, d);
    let names = artists_of(d);
    let ids = ids_after(start.artists, names, names.len());
    lemma_song_again(start.songs, input.song, again.song);
    lemma_album_again(start.albums, d);
    lemma_album_song_again(start.album_songs, d, song_id, album_id);
    lemma_artist_again(start.artists, d);
    lemma_links_again(start.artist_songs, song_id, ids);
    let later = reconciled(store, again);
    assert(later.artist_songs == store.artist_songs);
}


/// A blank artist text holds no name, and the song then has one artist,
/// named by the whole text.
pub proof fn lemma_blank_artist_has_no_name(artist: Seq<char>)
    requires
        is_blank(artist),
    ensures
        artist_names(artist) == Seq::<Seq<char>>::empty(),
        song_artists(artist) == seq![artist],
{
    let slash = seq!['/'];
    lemma_find_from(artist, slash, 0);
    assert forall|k: int| 0 <= k implies !matches_at(artist, slash, k) by {
        if matches_at(artist, slash, k) {
            assert(artist[k + 0] == slash[0]);
            assert(is_space(artist[k]));
        }
    }
    assert(find_from(artist, slash, 0) == -1);
    assert(artist.subrange(0, artist.len() as int) == artist);
    assert(split(artist, slash) == seq![artist]);
    lemma_trim_empty_iff_blank(artist);
    let pieces = seq![artist];
    assert(pieces.drop_last() == Seq::<Seq<char>>::empty());
    assert(pieces.last() == artist);
    assert(words(pieces.drop_last()) == Seq::<Seq<char>>::empty());
    assert(words(pieces) == Seq::<Seq<char>>::empty());
}


/// A reconciliation deletes nothing. Every song keeps its place and all but
/// where its file lies, its id above all; every other table keeps its rows
/// and grows behind them, if it grows.
pub proof fn lemma_rows_are_kept(store: Store, input: Input)
    ensures
        ({
            let after = reconciled(store, input);
            &&& after.songs.len() >= store.songs.len()
            &&& forall|i: int|
                0 <= i < store.songs.len() ==> #[trigger] after.songs[i] == (MetadataView {
                    file_name: after.songs[i].file_name,
                    file_path: after.songs[i].file_path,
                    file_url: after.songs[i].file_url,
                    ..store.songs[i]
                })
            &&& store.albums.is_prefix_of(after.albums)
            &&& store.album_songs.is_prefix_of(after.album_songs)
            &&& store.artists.is_prefix_of(after.artists)
            &&& store.artist_songs.is_prefix_of(after.artist_songs)
            &&& store.covers.is_prefix_of(after.covers)
            &&& store.lyrics.is_prefix_of(after.lyrics)
        }),
{
    let names = artists_of(input.decoded);
    lemma_artists_extend(store.artists, names, 0, names.len());
}

/// What a reconciliation reports is what it added: the links between song
/// and album, between song and artists, and the covers are counted as the
/// tables grew; the lyric lines too, unless the store held lines of the song
/// already, which are then counted in their place.
pub proof fn lemma_summary_counts_what_was_added(store: Store, input: Input)
    ensures
        ({
            let after = reconciled(store, input);
            let summary = summarized(store, input);
            let held = store.lyrics.filter(lyric_of(summary.song_id)).len();
            &&& summary.song_id == song_id_after(store.songs, input.song)
            &&& summary.album_id == album_id_after(store.albums, input.decoded)
            &&& after.album_songs.len() == store.album_songs.len() + summary.album_songs
            &&& after.artist_songs.len() == store.artist_songs.len() + summary.artist_songs
            &&& after.covers.len() == store.covers.len() + summary.covers
            &&& held == 0 ==> after.lyrics.len() == store.lyrics.len() + summary.lyrics
            &&& held > 0 ==> after.lyrics == store.lyrics && summary.lyrics == held
        }),
{
    let after = reconciled(store, input);
    let summary = summarized(store, input);
    if store.lyrics.filter(lyric_of(summary.song_id)).len() > 0 {
        assert(store.lyrics + Seq::<LyricView>::empty() == store.lyrics);
    }
}


/// Lyric lines that were deleted come back: the next reconciliation of the
/// file of the song adds all the lines of the file.
pub proof fn lemma_deleted_lyrics_come_back(store: Store, input: Input)
    ensures
        ({
            let song_id = song_id_after(store.songs, input.song);
            let deleted = Store {
                lyrics: store.lyrics.filter(lyric_of_other(song_id)),
                ..store
            };
            reconciled(deleted, input).lyrics == deleted.lyrics + lyric_rows(
                input.decoded,
                song_id,
            )
        }),
{
    let song_id = song_id_after(store.songs, input.song);
    let left = store.lyrics.filter(lyric_of_other(song_id));
    assert forall|i: int| 0 <= i < left.len() implies !lyric_of(song_id)(#[trigger] left[i]) by {
        store.lyrics.lemma_filter_pred(lyric_of_other(song_id), i);
    }
    lemma_filter_none(left, lyric_of(song_id));
}

/// Covers that were deleted come back: where covers are wanted, the next
/// reconciliation of a file of the album adds all the covers of the file.
pub proof fn lemma_deleted_covers_come_back(store: Store, input: Input)
    requires
        input.want_covers,
    ensures
        ({
            let album_id = album_id_after(store.albums, input.decoded);
            let deleted = Store {
                covers: store.covers.filter(cover_of_other(album_id, "album"@)),
                ..store
            };
            reconciled(deleted, input).covers == deleted.covers + cover_rows(
                input.images.filter(is_encodable()),
                album_id,
            )
        }),
{
    let album_id = album_id_after(store.albums, input.decoded);
    let left = store.covers.filter(cover_of_other(album_id, "album"@));
    let rows = cover_rows(input.images.filter(is_encodable()), album_id);
    assert forall|size: Seq<char>| !has_cover(left, album_id, size) by {
        let fits = cover_is(album_id, "album"@, size);
        lemma_find(left, fits);
        assert forall|i: int| 0 <= i < left.len() implies !fits(left[i]) by {
            store.covers.lemma_filter_pred(cover_of_other(album_id, "album"@), i);
        }
    }
    lemma_filter_all(rows, is_absent(left, album_id));
}


/// The greatest id after artists are resolved is at most the greatest id
/// before and the number of artists that were added.
proof fn lemma_greatest_after(artists: Seq<ArtistView>, names: Seq<ArtistView>, n: nat)
    ensures
        artists.len() <= artists_after(artists, names, n).len(),
        greatest(artist_ids(artists_after(artists, names, n))) <= greatest(artist_ids(artists))
            + artists_after(artists, names, n).len() - artists.len(),
    decreases n,
{
    if n > 0 {
        let i = (n - 1) as nat;
        lemma_greatest_after(artists, names, i);
        let before = artists_after(artists, names, i);
        if find(before, artist_is(names[i as int].name)) is None {
            let top = greatest(artist_ids(before));
            let after = artists_after(artists, names, n);
            assert(artist_ids(after) == artist_ids(before).push(top + 1));
            assert(artist_ids(before).push(top + 1).drop_last() == artist_ids(before));
        }
    }
}

/// A store that has taken a file needs no id to take it again: it holds the
/// album and every artist of the file.
pub proof fn lemma_no_id_is_needed_again(store: Store, input: Input)
    requires
        has_ids_left(store, input.decoded),
    ensures
        has_ids_left(reconciled(store, input), input.decoded),
        has_ids_left(before_covers(store, input), input.decoded),
{
    let d = input.decoded;
    let names = artists_of(d);
    let once = reconciled(store, input);
    if find(store.albums, album_is(d.album)) is None {
        assert(once.albums.drop_last() == store.albums);
    }
    lemma_artist_again(store.artists, d);
    lemma_greatest_after(store.artists, names, names.len());
    assert(artists_after(store.artists, names, 0) == store.artists);
    assert(artists_after(once.artists, names, 0) == once.artists);
}

/// A file that was taken into the store is taken again: the second scan is
/// neither refused nor given up, whatever id it draws, and leaves the store
/// as the first scan left it.
pub proof fn lemma_second_scan_changes_nothing(
    store: Store,
    d: DecodedView,
    file_path: Seq<char>,
    music_dir: Seq<char>,
    first_id: Seq<char>,
    second_id: Seq<char>,
    images: Seq<ImageView>,
)
    requires
        refusal(store, file_path, Some(d)) is None,
        !refuses_covers(store, file_input(d, file_path, music_dir, first_id, images)),
    ensures
        ({
            let once = reconciled(store, file_input(d, file_path, music_dir, first_id, images));
            let second = file_input(d, file_path, music_dir, second_id, images);
            &&& refusal(once, file_path, Some(d)) is None
            &&& !refuses_covers(once, second)
            &&& reconciled(once, second) == once
        }),
{
    let first = file_input(d, file_path, music_dir, first_id, images);
    let second = file_input(d, file_path, music_dir, second_id, images);
    let once = reconciled(store, first);
    lemma_no_id_is_needed_again(store, first);
    lemma_reconcile_is_idempotent(store, first, second);
    lemma_album_again(store.albums, d);
    lemma_covers_again(
        store.covers,
        true,
        album_id_after(store.albums, first.decoded),
        images,
    );
}

/// A scan that was given up because the store refused the covers is
/// completed by the next scan of the file, once the store has room: that
/// scan is not refused, whatever id it draws; it changes no song, album,
/// artist or link; and it leaves the store as a scan without failure would
/// have left it.
pub proof fn lemma_next_scan_completes(
    store: Store,
    d: DecodedView,
    file_path: Seq<char>,
    music_dir: Seq<char>,
    first_id: Seq<char>,
    second_id: Seq<char>,
    images: Seq<ImageView>,
    limit: nat,
)
    requires
        refusal(store, file_path, Some(d)) is None,
        refuses_covers(store, file_input(d, file_path, music_dir, first_id, images)),
    ensures
        ({
            let first = file_input(d, file_path, music_dir, first_id, images);
            let second = file_input(d, file_path, music_dir, second_id, images);
            let left = Store { cover_limit: limit, ..before_covers(store, first) };
            let whole = Store { cover_limit: limit, ..reconciled(store, first) };
            &&& refusal(left, file_path, Some(d)) is None
            &&& refuses_covers(left, second) == !has_cover_room(
                left,
                (whole.covers.len() - left.covers.len()) as nat,
            )
            &&& reconciled(left, second) == whole
            &&& whole.songs == left.songs
            &&& whole.albums == left.albums
            &&& whole.album_songs == left.album_songs
            &&& whole.artists == left.artists
            &&& whole.artist_songs == left.artist_songs
        }),
{
    let first = file_input(d, file_path, music_dir, first_id, images);
    let second = file_input(d, file_path, music_dir, second_id, images);
    lemma_no_id_is_needed_again(store, first);
    lemma_unfinished_scan_is_completed(store, first, second, limit);
    lemma_album_again(store.albums, d);
}

/// The store that was left when the covers were to be added is brought by
/// the next reconciliation of the file to where the first would have
/// brought it, and nothing but covers and lyrics is added. The room that the
/// store has for covers may have changed in between.
pub proof fn lemma_unfinished_scan_is_completed(
    start: Store,
    input: Input,
    again: Input,
    limit: nat,
)
    requires
        again == (Input { song: MetadataView { id: again.song.id, ..input.song }, ..input }),
    ensures
        ({
            let left = Store { cover_limit: limit, ..before_covers(start, input) };
            let whole = Store { cover_limit: limit, ..reconciled(start, input) };
            &&& reconciled(left, again) == whole
            &&& whole.songs == left.songs
            &&& whole.albums == left.albums
            &&& whole.album_songs == left.album_songs
            &&& whole.artists == left.artists
            &&& whole.artist_songs == left.artist_songs
        }),
{
    let d = input.decoded;
    let song_id = song_id_after(start.songs, input.song);
    let album_id = album_id_after(start.albums, d);
    let names = artists_of(d);
    let ids = ids_after(start.artists, names, names.len());
    lemma_song_again(start.songs, input.song, again.song);
    lemma_album_again(start.albums, d);
    lemma_album_song_again(start.album_songs, d, song_id, album_id);
    lemma_artist_again(start.artists, d);
    lemma_links_again(start.artist_songs, song_id, ids);
    let left = Store { cover_limit: limit, ..before_covers(start, input) };
    let later = reconciled(left, again);
    assert(later.artist_songs == left.artist_songs);
}

} // verus!
