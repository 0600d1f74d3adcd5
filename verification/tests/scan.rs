use lib_utils::database::service::{Album, Lyric};
use lib_utils::datasource::types::ScanStatus;
use lib_utils::readmeta::MyMetadata;
use lib_utils::scan::{music_files, ScanTally, WORKERS};
use lib_utils::store::MemoryStore;

fn paths(list: &[&str]) -> Vec<String> {
    list.iter().map(|s| s.to_string()).collect()
}

fn store_with(path: &str, album: Option<&str>, lyrics: usize) -> MemoryStore {
    let mut store = MemoryStore::new();
    let mut d = MyMetadata::empty();
    d.title = "t".to_string();
    d.album = "Al".to_string();
    let mut song = d.song_from("id1".to_string());
    song.file_path = path.to_string();
    store.add_metadata(&song);
    if let Some(name) = album {
        store.add_album(&Album::new(name.to_string()));
    }
    let lines: Vec<Lyric> = (0..lyrics)
        .map(|i| Lyric {
            id: i,
            song_id: "id1".to_string(),
            time_ms: 0,
            text: "la".to_string(),
            language: String::new(),
        })
        .collect();
    store.add_lyrics(&lines);
    store
}

#[test]
fn only_audio_files_are_scanned() {
    let files = paths(&["/m/a.mp3", "/m/cover.jpg", "/m/b.FLAC", "/m/notes", "/m/c.flac.txt"]);
    assert_eq!(music_files(&files), paths(&["/m/a.mp3", "/m/b.FLAC"]));
    assert_eq!(music_files(&vec![]), paths(&[]));
    assert_eq!(WORKERS, 12);
}

#[test]
fn a_file_is_lost_without_song_album_or_lyrics() {
    let whole = store_with("/m/a.mp3", Some("Al"), 2);
    assert!(!whole.check_lost_file("/m/a.mp3"));
    assert!(!whole.check_lost_file("\\m\\a.mp3"));
    assert!(whole.check_lost_file("/m/b.mp3"));
    assert!(store_with("/m/a.mp3", None, 2).check_lost_file("/m/a.mp3"));
    assert!(store_with("/m/a.mp3", Some("Other"), 2).check_lost_file("/m/a.mp3"));
    assert!(store_with("/m/a.mp3", Some("Al"), 0).check_lost_file("/m/a.mp3"));
    assert!(MemoryStore::new().check_lost_file("/m/a.mp3"));
}

#[test]
fn the_lost_files_are_read_again() {
    let store = store_with("/m/a.mp3", Some("Al"), 1);
    let files = paths(&["/m/new.mp3", "/m/a.mp3", "/m/other.flac"]);
    assert_eq!(store.lost_files(&files), paths(&["/m/new.mp3", "/m/other.flac"]));
    assert_eq!(store.get_metadata_by_path("/m/a.mp3").map(|s| s.id), Some("id1".to_string()));
    assert_eq!(store.get_metadata_by_path("/m/b.mp3"), None);
}

#[test]
fn the_tally_counts_files_and_keeps_errors() {
    let mut tally = ScanTally::new(3);
    assert_eq!(tally.percent(), 0);
    assert!(!tally.is_done());
    tally.record(None);
    assert_eq!(tally.percent(), 3333);
    tally.record(Some("title is empty".to_string()));
    assert_eq!(tally.percent(), 6666);
    let progress = tally.progress(Some("/m/c.mp3".to_string()));
    assert_eq!(progress.status, ScanStatus::Scanning);
    assert_eq!(progress.processed, 2);
    assert_eq!(progress.total, 3);
    assert_eq!(progress.current_file, Some("/m/c.mp3".to_string()));
    assert_eq!(progress.error, Some("title is empty".to_string()));
    tally.record(Some("No metadata found".to_string()));
    assert!(tally.is_done());
    assert_eq!(tally.percent(), 10000);
    assert_eq!(tally.errors, paths(&["title is empty", "No metadata found"]));
    assert_eq!(tally.progress(None).status, ScanStatus::Completed);
    assert_eq!(tally.progress(None).error, Some("title is empty".to_string()));
}

#[test]
fn a_scan_without_files_is_done() {
    let tally = ScanTally::new(0);
    assert!(tally.is_done());
    assert_eq!(tally.percent(), 0);
    assert_eq!(tally.progress(None).status, ScanStatus::Completed);
    assert_eq!(tally.progress(None).error, None);
}

#[test]
fn deleted_lyrics_make_the_file_lost_again() {
    let mut store = store_with("/m/a.mp3", Some("Al"), 2);
    let other = Lyric {
        id: 9,
        song_id: "id2".to_string(),
        time_ms: 5,
        text: "other".to_string(),
        language: String::new(),
    };
    store.add_lyrics(&vec![other.clone()]);
    assert_eq!(store.del_lyrics("id1"), 2);
    assert_eq!(store.lyrics, vec![other]);
    assert!(store.check_lost_file("/m/a.mp3"));
    assert_eq!(store.del_lyrics("id1"), 0);
}
