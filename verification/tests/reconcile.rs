use lib_utils::database::service::{Album, Artist, ArtistSong, Cover, Metadata};
use lib_utils::engine::reconcile_in_memory;
use lib_utils::ingest::{normalize, read_metadata_into_db, IngestError};
use lib_utils::readmeta;
use lib_utils::readmeta::MyMetadata;
use lib_utils::reconcile::{Action, Phase, ReconcileError, Reconciler, Reply, Summary};
use lib_utils::store::MemoryStore;

fn decoded(title: &str, artist: &str, album: &str, lyrics: &[(u64, &str)]) -> MyMetadata {
    let mut d = MyMetadata::empty();
    d.title = title.to_string();
    d.artist = artist.to_string();
    d.album = album.to_string();
    d.lyrics = lyrics
        .iter()
        .map(|(time_ms, text)| readmeta::Lyric { time_ms: *time_ms, text: text.to_string() })
        .collect();
    d
}

fn image(size: &str, bytes: &[u8]) -> readmeta::Cover {
    readmeta::Cover {
        format: "webp".to_string(),
        size: size.to_string(),
        length: bytes.len(),
        width: 10,
        height: 10,
        base64: bytes.to_vec(),
    }
}

fn both_images() -> Vec<readmeta::Cover> {
    vec![image("small", b"s"), image("medium", b"m")]
}

fn counts(store: &MemoryStore) -> (usize, usize, usize, usize, usize, usize, usize) {
    (
        store.songs.len(),
        store.albums.len(),
        store.album_songs.len(),
        store.artists.len(),
        store.artist_songs.len(),
        store.covers.len(),
        store.lyrics.len(),
    )
}

fn same(a: &MemoryStore, b: &MemoryStore) -> bool {
    a.songs == b.songs
        && a.albums == b.albums
        && a.album_songs == b.album_songs
        && a.artists == b.artists
        && a.artist_songs == b.artist_songs
        && a.covers == b.covers
        && a.lyrics == b.lyrics
}

fn copy(a: &MemoryStore) -> MemoryStore {
    MemoryStore {
        songs: a.songs.clone(),
        albums: a.albums.clone(),
        album_songs: a.album_songs.clone(),
        artists: a.artists.clone(),
        artist_songs: a.artist_songs.clone(),
        covers: a.covers.clone(),
        lyrics: a.lyrics.clone(),
        cover_limit: a.cover_limit,
    }
}

fn scan(store: &mut MemoryStore, path: &str, d: MyMetadata, images: &Vec<readmeta::Cover>) -> Summary {
    read_metadata_into_db(store, path, "/music", Some(d), images).unwrap()
}

#[test]
fn a_fresh_directory_with_one_file() {
    let mut store = MemoryStore::new();
    let d = decoded("Song A", "X / Y", "Album 1", &[(0, "one"), (1000, "two")]);
    let summary = scan(&mut store, "/music/Rock/a.flac", d, &both_images());
    assert_eq!(counts(&store), (1, 1, 1, 2, 2, 2, 2));
    assert_eq!(summary.album_id, 1);
    assert_eq!(summary.album_songs, 1);
    assert_eq!(summary.artists, 2);
    assert_eq!(summary.artist_songs, 2);
    assert_eq!(summary.covers, 2);
    assert_eq!(summary.lyrics, 2);
    let song = &store.songs[0];
    assert_eq!(summary.song_id, song.id);
    assert_eq!(song.title, "Song A");
    assert_eq!(song.file_name, "a.flac");
    assert_eq!(song.file_path, "/music/Rock/a.flac");
    assert_eq!(song.file_url, "/Rock/a.flac");
    assert_eq!(song.genre, "Rock");
    assert_eq!(store.albums[0], Album {
        id: 1,
        name: "Album 1".to_string(),
        description: String::new(),
        year: String::new(),
        artist: String::new(),
    });
    assert_eq!(store.album_songs[0].album_artist, "X");
    assert_eq!(store.artists[0].name, "X");
    assert_eq!(store.artists[1].name, "Y");
    assert_eq!(store.artists[0].id, 1);
    assert_eq!(store.artists[1].id, 2);
    assert_eq!(store.artist_songs, vec![
        ArtistSong { artist_id: 1, song_id: song.id.clone() },
        ArtistSong { artist_id: 2, song_id: song.id.clone() },
    ]);
    assert_eq!(store.covers[0].size, "small");
    assert_eq!(store.covers[0].kind, "album");
    assert_eq!(store.covers[0].link_id, 1);
    assert_eq!(store.covers[0].base64, "cw==");
    assert_eq!(store.covers[1].size, "medium");
    assert_eq!(store.lyrics[1].text, "two");
    assert_eq!(store.lyrics[1].time_ms, 1000);
    assert_eq!(store.lyrics[1].song_id, song.id);
}

#[test]
fn a_file_without_art_or_lyrics_adds_neither() {
    let mut store = MemoryStore::new();
    let summary = scan(&mut store, "/music/a.mp3", decoded("S", "X", "Al", &[]), &vec![]);
    assert_eq!(counts(&store), (1, 1, 1, 1, 1, 0, 0));
    assert_eq!(summary.covers, 0);
    assert_eq!(summary.lyrics, 0);
}

#[test]
fn a_second_scan_adds_nothing() {
    let mut store = MemoryStore::new();
    let d = decoded("Song A", "X / Y / X", "Album 1", &[(0, "one")]);
    scan(&mut store, "/music/Rock/a.flac", d.clone(), &both_images());
    let once = copy(&store);
    let summary = scan(&mut store, "/music/Rock/a.flac", d, &both_images());
    assert!(same(&store, &once));
    assert_eq!(summary.song_id, once.songs[0].id);
    assert_eq!(summary.album_songs, 0);
    assert_eq!(summary.artist_songs, 0);
    assert_eq!(summary.covers, 0);
    assert_eq!(summary.lyrics, 1);
    assert_eq!(counts(&store), (1, 1, 1, 2, 2, 2, 1));
}

#[test]
fn two_files_of_one_song_are_one_row_that_moves() {
    let mut store = MemoryStore::new();
    scan(&mut store, "/music/old/a.flac", decoded("S", "X", "Al", &[]), &vec![]);
    let id = store.songs[0].id.clone();
    scan(&mut store, "/music/new/b.flac", decoded("S", "X", "Al", &[]), &vec![]);
    assert_eq!(store.songs.len(), 1);
    assert_eq!(store.songs[0].id, id);
    assert_eq!(store.songs[0].file_path, "/music/new/b.flac");
    assert_eq!(store.songs[0].file_url, "/new/b.flac");
    assert_eq!(store.songs[0].file_name, "b.flac");
    assert_eq!(store.songs[0].genre, "old");
    assert_eq!(counts(&store), (1, 1, 1, 1, 1, 0, 0));
}

#[test]
fn albums_and_artists_are_shared_between_songs() {
    let mut store = MemoryStore::new();
    scan(&mut store, "/music/a.flac", decoded("S1", "X / Y", "Al", &[]), &vec![]);
    scan(&mut store, "/music/b.flac", decoded("S2", "Y / Z", "Al", &[]), &vec![]);
    assert_eq!(counts(&store), (2, 1, 2, 3, 4, 0, 0));
    assert_eq!(store.artists.iter().map(|a| a.id).collect::<Vec<_>>(), vec![1, 2, 3]);
    assert_eq!(store.artist_songs[2].artist_id, 2);
    assert_eq!(store.artist_songs[3].artist_id, 3);
}

#[test]
fn covers_that_are_kept_are_not_read_again() {
    let mut store = MemoryStore::new();
    scan(&mut store, "/music/a.flac", decoded("S", "X", "Al", &[]), &both_images());
    let d = decoded("S", "X", "Al", &[]);
    let song = d.song_from("id2".to_string());
    let (mut machine, mut action) = Reconciler::start(d, song, true);
    let mut asked = vec![];
    while !machine.is_over() {
        assert!(!matches!(action, Action::ReadCovers));
        assert!(!matches!(action, Action::AddCovers { .. }));
        asked.push(action.clone());
        let reply = store.serve(&action, &vec![image("large", b"l")]);
        let (next, asks) = machine.step(reply);
        machine = next;
        action = asks;
    }
    assert_eq!(machine.phase, Phase::Done);
    assert_eq!(store.covers.len(), 2);
    assert!(asked.contains(&Action::FindCover {
        link_id: 1,
        kind: "album".to_string(),
        size: "medium".to_string(),
    }));
}

#[test]
fn only_the_missing_cover_is_added() {
    let mut store = MemoryStore::new();
    scan(&mut store, "/music/a.flac", decoded("S", "X", "Al", &[]), &vec![image("small", b"s")]);
    assert_eq!(store.covers.len(), 1);
    let summary = scan(&mut store, "/music/a.flac", decoded("S", "X", "Al", &[]), &both_images());
    assert_eq!(summary.covers, 1);
    assert_eq!(store.covers.len(), 2);
    assert_eq!(store.covers[1].size, "medium");
}

#[test]
fn covers_are_not_looked_up_where_none_are_wanted() {
    let mut store = MemoryStore::new();
    let d = decoded("S", "X", "Al", &[]);
    let song = d.song_from("id1".to_string());
    let summary = reconcile_in_memory(&mut store, d, song, false, &both_images()).unwrap();
    assert_eq!(summary.covers, 0);
    assert_eq!(summary.song_id, "id1");
    assert_eq!(counts(&store), (1, 1, 1, 1, 1, 0, 0));
}

#[test]
fn a_failed_cover_insert_is_completed_by_the_next_scan() {
    let mut store = MemoryStore::new();
    let d = decoded("S", "X / Y", "Al", &[(0, "la")]);
    let song = d.song_from("id1".to_string());
    let (mut machine, mut action) = Reconciler::start(d.clone(), song, true);
    loop {
        let reply = match &action {
            Action::AddCovers { .. } => Reply::Failed("disk full".to_string()),
            other => store.serve(other, &both_images()),
        };
        let (next, asks) = machine.step(reply);
        machine = next;
        action = asks;
        if machine.is_over() {
            break;
        }
    }
    assert_eq!(machine.phase, Phase::Failed);
    assert_eq!(action, Action::Abort { error: ReconcileError::Store("disk full".to_string()) });
    assert_eq!(counts(&store), (1, 1, 1, 2, 2, 0, 0));
    let partial = copy(&store);
    let song = d.song_from("id2".to_string());
    let summary = reconcile_in_memory(&mut store, d, song, true, &both_images()).unwrap();
    assert_eq!(summary.song_id, "id1");
    assert_eq!(counts(&store), (1, 1, 1, 2, 2, 2, 1));
    assert_eq!(store.songs, partial.songs);
    assert_eq!(store.albums, partial.albums);
    assert_eq!(store.album_songs, partial.album_songs);
    assert_eq!(store.artists, partial.artists);
    assert_eq!(store.artist_songs, partial.artist_songs);
}

#[test]
fn the_machine_asks_in_the_order_of_the_steps() {
    let d = decoded("S", "X", "Al", &[]);
    let song = d.song_from("id1".to_string());
    let (machine, action) = Reconciler::start(d, song.clone(), false);
    assert_eq!(action, Action::FindSong { title: "S".to_string(), artist: "X".to_string() });
    let (machine, action) = machine.step(Reply::Song(None));
    assert_eq!(action, Action::AddSong { song });
    let (machine, action) = machine.step(Reply::Count(1));
    assert_eq!(action, Action::FindAlbum { name: "Al".to_string() });
    let (machine, action) = machine.step(Reply::Album(Some(Album::new("Al".to_string()).dup())));
    assert_eq!(action, Action::FindAlbumSong { song_id: "id1".to_string(), album_id: 0 });
    let (machine, action) = machine.step(Reply::AlbumSong(None));
    assert!(matches!(action, Action::AddAlbumSong { .. }));
    let (machine, action) = machine.step(Reply::Count(1));
    assert_eq!(action, Action::FindArtist { name: "X".to_string() });
    let found = Artist { id: 4, name: "X".to_string(), cover: String::new(), description: String::new() };
    let (machine, action) = machine.step(Reply::Artist(Some(found)));
    assert_eq!(action, Action::FindArtistSongs { song_id: "id1".to_string() });
    let (machine, action) = machine.step(Reply::ArtistSongs(vec![]));
    assert_eq!(action, Action::AddArtistSongs {
        links: vec![ArtistSong { artist_id: 4, song_id: "id1".to_string() }],
    });
    let (machine, action) = machine.step(Reply::Count(1));
    assert_eq!(action, Action::FindLyrics { song_id: "id1".to_string() });
    let (machine, action) = machine.step(Reply::Count(3));
    assert_eq!(machine.phase, Phase::Done);
    assert_eq!(action, Action::Finish {
        summary: Summary {
            song_id: "id1".to_string(),
            album_id: 0,
            album_songs: 1,
            artists: 1,
            artist_songs: 1,
            covers: 0,
            lyrics: 3,
        },
    });
    let (machine, action) = machine.step(Reply::Count(1));
    assert_eq!(machine.phase, Phase::Failed);
    assert_eq!(action, Action::Abort { error: ReconcileError::UnexpectedReply });
}

#[test]
fn links_that_exist_are_not_added_again() {
    let d = decoded("S", "X / Y", "Al", &[]);
    let song = d.song_from("id1".to_string());
    let (machine, _) = Reconciler::start(d, song, false);
    let (machine, _) = machine.step(Reply::Song(None));
    let (machine, _) = machine.step(Reply::Count(1));
    let (machine, _) = machine.step(Reply::Album(None));
    let (machine, _) = machine.step(Reply::Id(2));
    let (machine, _) = machine.step(Reply::AlbumSong(Some(
        MyMetadata::empty().build_album_song("id1", 2),
    )));
    let (machine, action) = machine.step(Reply::Artist(None));
    assert!(matches!(action, Action::AddArtist { .. }));
    let (machine, _) = machine.step(Reply::Id(7));
    let (machine, _) = machine.step(Reply::Artist(None));
    let (machine, _) = machine.step(Reply::Id(8));
    let existing = vec![ArtistSong { artist_id: 8, song_id: "id1".to_string() }];
    let (_, action) = machine.step(Reply::ArtistSongs(existing));
    assert_eq!(action, Action::AddArtistSongs {
        links: vec![ArtistSong { artist_id: 7, song_id: "id1".to_string() }],
    });
}

#[test]
fn an_artist_without_a_positive_id_is_left_out() {
    let d = decoded("S", "X", "Al", &[]);
    let song = d.song_from("id1".to_string());
    let (machine, _) = Reconciler::start(d, song, false);
    let (machine, _) = machine.step(Reply::Song(None));
    let (machine, _) = machine.step(Reply::Count(1));
    let (machine, _) = machine.step(Reply::Album(None));
    let (machine, _) = machine.step(Reply::Id(2));
    let (machine, _) = machine.step(Reply::AlbumSong(None));
    let (machine, _) = machine.step(Reply::Count(1));
    let odd = Artist { id: 0, name: "X".to_string(), cover: String::new(), description: String::new() };
    let (machine, action) = machine.step(Reply::Artist(Some(odd)));
    assert_eq!(action, Action::FindArtistSongs { song_id: "id1".to_string() });
    let (_, action) = machine.step(Reply::ArtistSongs(vec![]));
    assert_eq!(action, Action::AddArtistSongs { links: vec![] });
}

#[test]
fn a_failure_of_the_store_ends_the_file() {
    let d = decoded("S", "X", "Al", &[]);
    let song = d.song_from("id1".to_string());
    let (machine, _) = Reconciler::start(d, song, false);
    let (machine, action) = machine.step(Reply::Failed("locked".to_string()));
    assert_eq!(machine.phase, Phase::Failed);
    assert_eq!(action, Action::Abort { error: ReconcileError::Store("locked".to_string()) });
}

#[test]
fn a_reply_to_another_question_ends_the_file() {
    let d = decoded("S", "X", "Al", &[]);
    let song = d.song_from("id1".to_string());
    let (machine, _) = Reconciler::start(d, song, false);
    let (machine, action) = machine.step(Reply::Id(3));
    assert_eq!(machine.phase, Phase::Failed);
    assert_eq!(action, Action::Abort { error: ReconcileError::UnexpectedReply });
}

#[test]
fn files_are_rejected_for_their_path_their_tags_or_their_title() {
    let mut store = MemoryStore::new();
    let d = decoded("S", "X", "Al", &[]);
    assert_eq!(
        read_metadata_into_db(&mut store, "/music/a.txt", "/music", Some(d.clone()), &vec![]),
        Err(IngestError::NotMusic)
    );
    assert_eq!(
        read_metadata_into_db(&mut store, "/music/a.mp3", "/music", None, &vec![]),
        Err(IngestError::NoMetadata)
    );
    assert_eq!(
        read_metadata_into_db(&mut store, "/music/a.mp3", "/music", Some(decoded("", "X", "Al", &[])), &vec![]),
        Err(IngestError::EmptyTitle)
    );
    assert_eq!(counts(&store), (0, 0, 0, 0, 0, 0, 0));
    assert_eq!(IngestError::NotMusic.message(), "ignore file");
    assert_eq!(IngestError::NoMetadata.message(), "No metadata found");
    assert_eq!(IngestError::EmptyTitle.message(), "title is empty");
}

#[test]
fn the_song_row_has_name_path_and_address_with_forward_slashes() {
    let d = decoded("S", "X", "Al", &[]);
    let (pre, song) =
        normalize("C:\\music/Pop\\a.mp3", "C:\\music", Some(d), "abc".to_string()).unwrap();
    assert_eq!(song.id, "abc");
    assert_eq!(song.file_path, "C:/music/Pop/a.mp3");
    assert_eq!(song.file_url, "/Pop/a.mp3");
    assert_eq!(song.file_name, "Pop/a.mp3");
    assert_eq!(pre.genre, "");
    assert_eq!(song.genre, "");
}

#[test]
fn the_store_finds_the_first_row_that_fits() {
    let mut store = MemoryStore::new();
    let d = decoded("S", "X", "Al", &[]);
    let mut first = d.song_from("one".to_string());
    first.file_path = "/a".to_string();
    let mut second = d.song_from("two".to_string());
    second.file_path = "/b".to_string();
    store.add_metadata(&first);
    store.add_metadata(&second);
    assert_eq!(store.get_metadata_by_title_artist("S", "X"), Some(first.clone()));
    assert_eq!(store.get_metadata_by_title_artist("S", "Y"), None);
    assert_eq!(store.set_metadata_by_id("two", "n", "/p", "/u"), 1);
    assert_eq!(store.songs[1].file_path, "/p");
    assert_eq!(store.songs[0], first);
    assert_eq!(store.add_album(&Album::new("A".to_string())), 1);
    assert_eq!(store.add_album(&Album::new("B".to_string())), 2);
    assert_eq!(store.get_album_by_name("B").map(|a| a.id), Some(2));
    assert_eq!(store.get_cover(1, "album", "small"), None);
    let cover = Cover {
        kind: "album".to_string(),
        link_id: 1,
        format: "webp".to_string(),
        size: "small".to_string(),
        length: 0,
        width: 1,
        height: 1,
        base64: String::new(),
    };
    assert_eq!(store.add_covers(&vec![cover.clone()]), Some(1));
    assert_eq!(store.get_cover(1, "album", "small"), Some(cover));
    assert_eq!(store.get_cover(1, "song", "small"), None);
    assert_eq!(store.get_cover(2, "album", "small"), None);
}

#[test]
fn songs_keep_their_metadata_type() {
    let song: Metadata = MyMetadata::empty().song_from("x".to_string());
    assert_eq!(song.dup(), song);
}

#[test]
fn deleted_covers_and_lyrics_come_back_with_the_next_scan() {
    let mut store = MemoryStore::new();
    let d = decoded("S", "X", "Al", &[(0, "one"), (500, "two")]);
    scan(&mut store, "/music/a.flac", d.clone(), &both_images());
    let whole = copy(&store);
    assert_eq!(store.del_covers(1, "album"), 2);
    assert_eq!(store.del_covers(1, "album"), 0);
    assert_eq!(store.del_lyrics(&whole.songs[0].id), 2);
    assert_eq!(counts(&store), (1, 1, 1, 1, 1, 0, 0));
    let summary = scan(&mut store, "/music/a.flac", d, &both_images());
    assert_eq!(summary.covers, 2);
    assert_eq!(summary.lyrics, 2);
    assert!(same(&store, &whole));
}

#[test]
fn covers_of_other_albums_and_kinds_stay() {
    let mut store = MemoryStore::new();
    scan(&mut store, "/music/a.flac", decoded("S1", "X", "Al", &[]), &both_images());
    scan(&mut store, "/music/b.flac", decoded("S2", "X", "Other", &[]), &both_images());
    assert_eq!(store.covers.len(), 4);
    assert_eq!(store.del_covers(2, "song"), 0);
    assert_eq!(store.del_covers(2, "album"), 2);
    assert_eq!(store.covers.len(), 2);
    assert!(store.covers.iter().all(|c| c.link_id == 1));
}

#[test]
fn a_store_without_room_for_the_covers_gives_the_scan_up_and_the_next_scan_completes_it() {
    let mut store = MemoryStore::new();
    store.cover_limit = 1;
    let d = decoded("S", "X / Y", "Al", &[(0, "la")]);
    assert_eq!(
        read_metadata_into_db(&mut store, "/music/a.flac", "/music", Some(d.clone()), &both_images()),
        Err(IngestError::CoversRefused)
    );
    assert_eq!(counts(&store), (1, 1, 1, 2, 2, 0, 0));
    assert_eq!(IngestError::CoversRefused.message(), "no room for the covers");
    let left = copy(&store);
    assert_eq!(
        read_metadata_into_db(&mut store, "/music/a.flac", "/music", Some(d.clone()), &both_images()),
        Err(IngestError::CoversRefused)
    );
    assert!(same(&store, &left));
    store.cover_limit = 2;
    let summary = scan(&mut store, "/music/a.flac", d.clone(), &both_images());
    assert_eq!(summary.covers, 2);
    assert_eq!(summary.lyrics, 1);
    assert_eq!(summary.album_songs, 0);
    assert_eq!(summary.artist_songs, 0);
    assert_eq!(counts(&store), (1, 1, 1, 2, 2, 2, 1));
    assert_eq!(store.songs, left.songs);
    assert_eq!(store.albums, left.albums);
    assert_eq!(store.album_songs, left.album_songs);
    assert_eq!(store.artists, left.artists);
    assert_eq!(store.artist_songs, left.artist_songs);
    let mut fresh = MemoryStore::new();
    scan(&mut fresh, "/music/a.flac", d, &both_images());
    assert_eq!(counts(&fresh), counts(&store));
    assert_eq!(fresh.covers, store.covers);
    assert_eq!(fresh.lyrics.len(), store.lyrics.len());
}

#[test]
fn a_full_store_still_takes_a_file_that_adds_no_cover() {
    let mut store = MemoryStore::new();
    scan(&mut store, "/music/a.flac", decoded("S", "X", "Al", &[]), &both_images());
    store.cover_limit = 0;
    let summary = scan(&mut store, "/music/a.flac", decoded("S", "X", "Al", &[]), &both_images());
    assert_eq!(summary.covers, 0);
    scan(&mut store, "/music/b.flac", decoded("T", "X", "Other", &[]), &vec![]);
    assert_eq!(counts(&store), (2, 2, 2, 1, 2, 2, 0));
    assert_eq!(store.add_covers(&vec![]), Some(0));
    assert!(store.has_cover_room(0));
    assert!(!store.has_cover_room(1));
    let cover = store.covers[0].clone();
    assert_eq!(store.add_covers(&vec![cover]), None);
    assert_eq!(store.covers.len(), 2);
}
