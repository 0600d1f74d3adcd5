use lib_utils::database::covert::{split_artist, split_original};
use lib_utils::database::service::{Album, AlbumSong, Artist, ArtistSong, Cover, Lyric, Metadata};
use lib_utils::datasource::types::split_genre;
use lib_utils::readmeta;
use lib_utils::readmeta::MyMetadata;

fn decoded(title: &str, artist: &str, album: &str) -> MyMetadata {
    let mut d = MyMetadata::empty();
    d.title = title.to_string();
    d.artist = artist.to_string();
    d.album = album.to_string();
    d.year = "1975".to_string();
    d
}

fn names(list: &[&str]) -> Vec<String> {
    list.iter().map(|s| s.to_string()).collect()
}

#[test]
fn artists_are_split_at_slashes() {
    assert_eq!(split_artist("A / B / C"), names(&["A", "B", "C"]));
    assert_eq!(split_artist("A//B/ /C/"), names(&["A", "B", "C"]));
    assert_eq!(split_artist("Solo"), names(&["Solo"]));
    assert_eq!(split_artist(""), names(&[]));
    assert_eq!(split_artist("  \t "), names(&[]));
}

#[test]
fn texts_are_split_at_any_pattern() {
    assert_eq!(split_original("Pop, Rock ,,Jazz", ","), names(&["Pop", "Rock", "Jazz"]));
    assert_eq!(split_original("a -- b--c", "--"), names(&["a", "b", "c"]));
    assert_eq!(split_original("a b", ""), names(&["a", "b"]));
    assert_eq!(split_genre(" Pop,Rock , "), names(&["Pop", "Rock"]));
}

#[test]
fn an_artist_text_without_names_is_the_one_artist() {
    let d = decoded("t", "  ", "al");
    assert_eq!(d.split_artist(), names(&[]));
    assert_eq!(
        d.build_artist(),
        vec![Artist { id: 0, name: "  ".to_string(), cover: String::new(), description: String::new() }]
    );
}

#[test]
fn each_name_becomes_an_artist() {
    let d = decoded("Song A", "X / Y", "Album 1");
    let artists = d.build_artist();
    assert_eq!(artists.len(), 2);
    assert_eq!(artists[0].name, "X");
    assert_eq!(artists[1].name, "Y");
    assert_eq!(artists[0].id, 0);
}

#[test]
fn the_genre_gets_the_folders_above_the_file() {
    let mut d = decoded("t", "a", "al");
    d.build_genre("music_root/Rock/Queen/song.flac", "music_root");
    assert_eq!(d.genre, "Rock,Queen");
    let mut d = decoded("t", "a", "al");
    d.genre = "Pop".to_string();
    d.build_genre("music_root/Rock/Queen/song.flac", "music_root");
    assert_eq!(d.genre, "Pop,Rock,Queen");
}

#[test]
fn folders_that_occur_in_the_root_are_left_out() {
    let mut d = decoded("t", "a", "al");
    d.genre = " Pop ".to_string();
    d.build_genre("/home/me/music/Jazz/song.mp3", "/home/me/music");
    assert_eq!(d.genre, "Pop,Jazz");
    let mut d = decoded("t", "a", "al");
    d.build_genre("/home/me/music/song.mp3", "/home/me/music");
    assert_eq!(d.genre, "");
    let mut d = decoded("t", "a", "al");
    d.build_genre("/data/mus/Rock/song.mp3", "/data/music");
    assert_eq!(d.genre, "Rock");
}

#[test]
fn the_album_and_its_link_are_built_of_the_tags() {
    let d = decoded("Song A", "X / Y", "Album 1");
    assert_eq!(
        d.build_album(),
        Album {
            id: 0,
            name: "Album 1".to_string(),
            description: String::new(),
            year: "1975".to_string(),
            artist: String::new(),
        }
    );
    assert_eq!(
        d.build_album_song("s1", 7),
        AlbumSong {
            album_id: 7,
            song_id: "s1".to_string(),
            album_name: "Album 1".to_string(),
            song_title: "Song A".to_string(),
            album_artist: "X".to_string(),
        }
    );
    assert_eq!(decoded("t", " ", "al").build_album_song("s", 1).album_artist, " ");
    assert_eq!(Album::new("N".to_string()).name, "N");
    assert_eq!(Album::new("N".to_string()).id, 0);
}

#[test]
fn links_to_artists_are_built_of_the_ids() {
    let d = decoded("t", "a", "al");
    assert_eq!(
        d.build_artist_songs("s1", &vec![3, 5]),
        vec![
            ArtistSong { artist_id: 3, song_id: "s1".to_string() },
            ArtistSong { artist_id: 5, song_id: "s1".to_string() },
        ]
    );
    assert_eq!(d.build_artist_songs("s1", &vec![]), vec![]);
}

#[test]
fn lyric_rows_are_built_of_the_parsed_lines() {
    let mut d = decoded("t", "a", "al");
    d.lyrics = vec![readmeta::Lyric { time_ms: 12500, text: "hello".to_string() }];
    assert_eq!(
        d.build_lyrics("s1"),
        vec![Lyric {
            id: 0,
            song_id: "s1".to_string(),
            time_ms: 12500,
            text: "hello".to_string(),
            language: String::new(),
        }]
    );
}

#[test]
fn cover_rows_hold_the_bytes_as_base64() {
    let mut d = decoded("t", "a", "al");
    d.covers = vec![readmeta::Cover {
        format: "webp".to_string(),
        size: "small".to_string(),
        length: 5,
        width: 140,
        height: 100,
        base64: b"hello".to_vec(),
    }];
    assert_eq!(
        d.build_covers(9, "album"),
        vec![Cover {
            kind: "album".to_string(),
            link_id: 9,
            format: "webp".to_string(),
            size: "small".to_string(),
            length: 5,
            width: 140,
            height: 100,
            base64: "aGVsbG8=".to_string(),
        }]
    );
}

#[test]
fn the_song_row_takes_the_tags_and_a_fresh_id() {
    let mut d = decoded("Song A", "X / Y", "Album 1");
    d.duration_ms = 185_250;
    d.bitrate = "16".to_string();
    d.genre = "Pop".to_string();
    let song = d.build_metadata();
    assert_eq!(song.id.len(), 9);
    assert!(song.id.chars().all(|c| c.is_ascii_alphanumeric()));
    assert_eq!(
        song,
        Metadata {
            id: song.id.clone(),
            file_name: String::new(),
            file_path: String::new(),
            file_url: String::new(),
            title: "Song A".to_string(),
            artist: "X / Y".to_string(),
            album: "Album 1".to_string(),
            year: "1975".to_string(),
            duration_ms: 185_250,
            bitrate: String::new(),
            samplerate: String::new(),
            language: String::new(),
            genre: "Pop".to_string(),
            track: String::new(),
            disc: String::new(),
            comment: String::new(),
        }
    );
    assert_eq!(d.song_from("abc".to_string()).id, "abc");
    assert_eq!(song.split_artist(), names(&["X", "Y"]));
    assert_eq!(song.split_genre(), names(&["Pop"]));
}
