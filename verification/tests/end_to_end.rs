use image::{DynamicImage, ImageFormat, RgbImage};
use lib_utils::ingest::{read_metadata_into_db, read_probe_into_db, IngestError};
use lib_utils::store::MemoryStore;
use lib_utils::tags::{get_metadata, RawImage, RawProbe, RawTag, Revision, StreamTime, TrackInfo};
use std::collections::HashSet;
use std::io::Cursor;

fn tag(key: &str, text: &str) -> RawTag {
    RawTag { std_key: Some(key.to_string()), text: Some(text.to_string()) }
}

fn png(width: u32, height: u32) -> Vec<u8> {
    let mut bytes = Vec::new();
    DynamicImage::ImageRgb8(RgbImage::new(width, height))
        .write_to(&mut Cursor::new(&mut bytes), ImageFormat::Png)
        .unwrap();
    bytes
}

fn flac(title: &str, artist: &str, album: &str, lyrics: &str, art: bool) -> RawProbe {
    let visuals = if art {
        vec![RawImage { media_type: "image/png".to_string(), dimensions: None, data: png(64, 64) }]
    } else {
        vec![]
    };
    RawProbe {
        container: Some(Revision {
            tags: vec![
                tag("TrackTitle", title),
                tag("Artist", artist),
                tag("Album", album),
                tag("Lyrics", lyrics),
                tag("Genre", "Pop"),
            ],
            visuals,
        }),
        probed: None,
        track: Some(TrackInfo {
            language: Some("en".to_string()),
            bits_per_sample: Some(16),
            sample_rate: Some(44100),
            time: Some(StreamTime { seconds: 201, millis: 500 }),
        }),
    }
}

fn scan(store: &mut MemoryStore, path: &str, probe: &RawProbe) -> Result<(), IngestError> {
    let decoded = get_metadata(probe, false);
    let images = get_metadata(probe, true).map(|d| d.covers).unwrap_or_default();
    read_metadata_into_db(store, path, "music_root", decoded, &images).map(|_| ())
}

fn counts(store: &MemoryStore) -> (usize, usize, usize, usize, usize, usize, usize) {
    (
        store.songs.len(),
        store.albums.len(),
        store.album_songs.len(),
        store.artists.len(),
        store.artist_songs.len(),
        store.covers.len(),
        store.lyrics.len(),
    )
}

#[test]
fn one_flac_file_in_a_fresh_directory() {
    let mut store = MemoryStore::new();
    let probe = flac("Song A", "X / Y", "Album 1", "[00:01.00]one\n\n  \nplain\n[00:02.50]two", true);
    scan(&mut store, "music_root/Rock/Queen/song.flac", &probe).unwrap();
    assert_eq!(counts(&store), (1, 1, 1, 2, 2, 2, 3));
    let song = &store.songs[0];
    assert_eq!(song.genre, "Pop,Rock,Queen");
    assert_eq!(song.duration_ms, 201_500);
    assert_eq!(song.language, "en");
    assert_eq!(song.file_url, "/Rock/Queen/song.flac");
    assert_eq!(store.lyrics.iter().map(|l| l.time_ms).collect::<Vec<_>>(), vec![1000, 0, 2500]);
    assert_eq!(store.covers[0].format, "webp");
    assert_eq!((store.covers[0].width, store.covers[0].height), (140, 140));
    assert_eq!((store.covers[1].width, store.covers[1].height), (600, 600));
    assert!(store.covers[0].base64.starts_with("UklGR"));
}

#[test]
fn a_file_without_art_or_lyrics() {
    let mut store = MemoryStore::new();
    let probe = flac("Song A", "X / Y", "Album 1", "", false);
    scan(&mut store, "music_root/song.flac", &probe).unwrap();
    assert_eq!(counts(&store), (1, 1, 1, 2, 2, 0, 0));
    assert_eq!(store.songs[0].genre, "Pop,");
}

#[test]
fn scanning_a_directory_twice_changes_nothing() {
    let mut store = MemoryStore::new();
    let files = [
        ("music_root/a/1.flac", flac("S1", "X / Y", "Al", "[00:01.00]la", true)),
        ("music_root/a/2.flac", flac("S2", "Y", "Al", "", false)),
        ("music_root/b/3.mp3", flac("S3", "Z / X", "Other", "text", true)),
    ];
    for (path, probe) in files.iter() {
        scan(&mut store, path, probe).unwrap();
    }
    let first = counts(&store);
    assert_eq!(first, (3, 2, 3, 3, 5, 4, 2));
    let songs = store.songs.clone();
    let covers = store.covers.clone();
    for (path, probe) in files.iter() {
        scan(&mut store, path, probe).unwrap();
    }
    assert_eq!(counts(&store), first);
    assert_eq!(store.songs, songs);
    assert_eq!(store.covers, covers);
}

#[test]
fn no_key_is_kept_twice() {
    let mut store = MemoryStore::new();
    let files = [
        ("music_root/a/1.flac", flac("S1", "X / Y / X", "Al", "la", true)),
        ("music_root/a/2.flac", flac("S1", "X / Y / X", "Al", "la", true)),
        ("music_root/a/3.flac", flac("S2", "Y/X", "Al", "", true)),
        ("music_root/a/1.flac", flac("S1", "X / Y / X", "Al", "la", true)),
    ];
    for (path, probe) in files.iter() {
        scan(&mut store, path, probe).unwrap();
    }
    let songs: HashSet<_> = store.songs.iter().map(|s| (s.title.clone(), s.artist.clone())).collect();
    assert_eq!(songs.len(), store.songs.len());
    let albums: HashSet<_> = store.albums.iter().map(|a| a.name.clone()).collect();
    assert_eq!(albums.len(), store.albums.len());
    let artists: HashSet<_> = store.artists.iter().map(|a| a.name.clone()).collect();
    assert_eq!(artists.len(), store.artists.len());
    let links: HashSet<_> =
        store.artist_songs.iter().map(|l| (l.artist_id, l.song_id.clone())).collect();
    assert_eq!(links.len(), store.artist_songs.len());
    let album_links: HashSet<_> =
        store.album_songs.iter().map(|l| (l.album_id, l.song_id.clone())).collect();
    assert_eq!(album_links.len(), store.album_songs.len());
    let covers: HashSet<_> =
        store.covers.iter().map(|c| (c.kind.clone(), c.link_id, c.size.clone())).collect();
    assert_eq!(covers.len(), store.covers.len());
    assert_eq!(counts(&store), (2, 1, 2, 2, 4, 2, 1));
    assert_eq!(store.songs[0].file_path, "music_root/a/1.flac");
}

#[test]
fn a_store_without_an_id_left_refuses_the_file() {
    let mut store = MemoryStore::new();
    let mut album = lib_utils::database::service::Album::new("Full".to_string());
    album.id = i64::MAX;
    store.albums.push(album);
    let probe = flac("S1", "X", "Al", "", false);
    assert_eq!(scan(&mut store, "music_root/1.flac", &probe), Err(IngestError::StoreFull));
    assert_eq!(counts(&store), (0, 1, 0, 0, 0, 0, 0));
    let decoded = get_metadata(&probe, false).unwrap();
    assert!(!store.has_ids_left(&decoded));
    assert!(MemoryStore::new().has_ids_left(&decoded));
    assert_eq!(IngestError::StoreFull.message(), "no id left");
}

#[test]
fn a_full_store_takes_a_file_whose_album_and_artists_it_holds() {
    let mut store = MemoryStore::new();
    let mut album = lib_utils::database::service::Album::new("Other".to_string());
    album.id = i64::MAX - 1;
    store.albums.push(album);
    store.artists.push(lib_utils::database::service::Artist {
        id: i64::MAX - 2,
        name: "Z".to_string(),
        cover: String::new(),
        description: String::new(),
    });
    let probe = flac("S1", "X / Y / X", "Al", "la", false);
    scan(&mut store, "music_root/1.flac", &probe).unwrap();
    assert_eq!(store.albums[1].id, i64::MAX);
    assert_eq!(store.artists[2].id, i64::MAX);
    let once = counts(&store);
    assert_eq!(once, (1, 2, 1, 3, 2, 0, 1));
    scan(&mut store, "music_root/1.flac", &probe).unwrap();
    assert_eq!(counts(&store), once);
    let more = flac("S2", "X / W", "Al", "", false);
    assert_eq!(scan(&mut store, "music_root/2.flac", &more), Err(IngestError::StoreFull));
    let album = flac("S3", "X", "New", "", false);
    assert_eq!(scan(&mut store, "music_root/3.flac", &album), Err(IngestError::StoreFull));
    assert_eq!(counts(&store), once);
    let held = flac("S4", "Y / Z", "Other", "", false);
    scan(&mut store, "music_root/4.flac", &held).unwrap();
    assert_eq!(counts(&store), (2, 2, 2, 3, 4, 0, 1));
}

#[test]
fn a_file_without_tags_is_refused_for_its_empty_title() {
    let mut store = MemoryStore::new();
    let probe = RawProbe {
        container: None,
        probed: None,
        track: Some(TrackInfo {
            language: None,
            bits_per_sample: Some(16),
            sample_rate: Some(44100),
            time: Some(StreamTime { seconds: 3, millis: 0 }),
        }),
    };
    assert_eq!(scan(&mut store, "music_root/1.flac", &probe), Err(IngestError::EmptyTitle));
    assert_eq!(counts(&store), (0, 0, 0, 0, 0, 0, 0));
}

#[test]
fn a_probed_file_is_taken_as_its_decoded_record_is() {
    let probe = flac("Song A", "X / Y", "Album 1", "[00:01.00]one\nplain", true);
    let mut by_probe = MemoryStore::new();
    let summary = read_probe_into_db(&mut by_probe, "music_root/Rock/a.flac", "music_root", Some(&probe))
        .unwrap();
    let mut by_record = MemoryStore::new();
    scan(&mut by_record, "music_root/Rock/a.flac", &probe).unwrap();
    assert_eq!(counts(&by_probe), (1, 1, 1, 2, 2, 2, 2));
    assert_eq!(counts(&by_probe), counts(&by_record));
    assert_eq!(by_probe.covers, by_record.covers);
    assert_eq!(by_probe.albums, by_record.albums);
    assert_eq!(by_probe.artists, by_record.artists);
    assert_eq!(by_probe.songs[0].genre, "Pop,Rock");
    assert_eq!(summary.covers, 2);
    assert_eq!(summary.lyrics, 2);
    let again = read_probe_into_db(&mut by_probe, "music_root/Rock/a.flac", "music_root", Some(&probe))
        .unwrap();
    assert_eq!(again.covers, 0);
    assert_eq!(counts(&by_probe), (1, 1, 1, 2, 2, 2, 2));
}

#[test]
fn a_file_that_was_not_probed_has_no_metadata() {
    let mut store = MemoryStore::new();
    assert_eq!(
        read_probe_into_db(&mut store, "music_root/a.flac", "music_root", None),
        Err(IngestError::NoMetadata)
    );
    assert_eq!(
        read_probe_into_db(&mut store, "music_root/a.txt", "music_root", None),
        Err(IngestError::NotMusic)
    );
    let tagless = RawProbe { container: None, probed: None, track: None };
    assert_eq!(
        read_probe_into_db(&mut store, "music_root/a.flac", "music_root", Some(&tagless)),
        Err(IngestError::EmptyTitle)
    );
    assert_eq!(counts(&store), (0, 0, 0, 0, 0, 0, 0));
}

#[test]
fn a_probed_file_is_given_up_where_the_store_has_no_room_for_its_covers() {
    let probe = flac("Song A", "X", "Album 1", "la", true);
    let mut store = MemoryStore::new();
    store.cover_limit = 1;
    assert_eq!(
        read_probe_into_db(&mut store, "music_root/a.flac", "music_root", Some(&probe)),
        Err(IngestError::CoversRefused)
    );
    assert_eq!(counts(&store), (1, 1, 1, 1, 1, 0, 0));
    store.cover_limit = 2;
    read_probe_into_db(&mut store, "music_root/a.flac", "music_root", Some(&probe)).unwrap();
    assert_eq!(counts(&store), (1, 1, 1, 1, 1, 2, 1));
}
