use lib_utils::comm::{generate_random_string, get_parent_directory_names, is_music_file};
use std::collections::HashSet;
use std::path::Path;

#[test]
fn parent_directory_names_run_from_root_to_leaf() {
    assert_eq!(
        get_parent_directory_names("music_root/Rock/Queen/song.flac"),
        vec!["music_root".to_string(), "Rock".to_string(), "Queen".to_string()]
    );
    assert_eq!(
        get_parent_directory_names("/music/Rock/Queen/song.flac"),
        vec!["music".to_string(), "Rock".to_string(), "Queen".to_string()]
    );
}

#[test]
fn parent_directory_names_skip_dots_and_empty_pieces() {
    assert_eq!(get_parent_directory_names("a//b/./c.mp3"), vec!["a".to_string(), "b".to_string()]);
    assert_eq!(get_parent_directory_names("a/../b/c.mp3"), vec!["a".to_string(), "b".to_string()]);
    assert_eq!(get_parent_directory_names("song.mp3"), Vec::<String>::new());
    assert_eq!(get_parent_directory_names(""), Vec::<String>::new());
    assert_eq!(get_parent_directory_names("/"), Vec::<String>::new());
}

#[test]
fn music_files_are_told_by_their_extension() {
    assert!(is_music_file("a/b/song.mp3"));
    assert!(is_music_file("a/b/song.FLAC"));
    assert!(is_music_file("song.tar.Mp3"));
    assert!(!is_music_file("song.ogg"));
    assert!(!is_music_file("song"));
    assert!(!is_music_file(".mp3"));
    assert!(!is_music_file("dir.mp3/.."));
    assert!(!is_music_file(""));
}

#[test]
fn test_generate_random_string() {
    for _i in 0..20 {
        let mut set = HashSet::new();
        for _j in 0..10000 {
            let result = generate_random_string(9);
            set.insert(result);
        }
        assert_eq!(set.len(), 10000);
    }
}

#[test]
fn random_strings_hold_letters_and_digits() {
    let text = generate_random_string(64);
    assert_eq!(text.chars().count(), 64);
    assert!(text.chars().all(|c| c.is_ascii_alphanumeric()));
    assert_eq!(generate_random_string(0), "");
}

fn parents_by_path(file_path: &str) -> Vec<String> {
    let mut names = Vec::new();
    let mut current = Path::new(file_path).parent();
    while let Some(parent) = current {
        if let Some(name) = parent.file_name().and_then(|name| name.to_str()) {
            names.push(name.to_string());
        }
        current = parent.parent();
    }
    names.reverse();
    names
}

fn music_by_path(file_path: &str) -> bool {
    match Path::new(file_path).extension().and_then(|ext| ext.to_str()) {
        Some(ext) => ["mp3", "flac"].contains(&ext.to_lowercase().as_str()),
        None => false,
    }
}

const PATHS: [&str; 30] = [
    "",
    "/",
    ".",
    "..",
    "a",
    "a/",
    "/a",
    "a/b",
    "a//b///c.mp3",
    "./a/b.flac",
    "a/./b/./c.MP3",
    "a/b/.",
    "a/b/..",
    "a/../b/c.flac",
    "../a/b.mp3",
    "/music/Rock/Queen/song.flac",
    "music_root/Rock/Queen/song.flac",
    "C:\\music\\a.mp3",
    "a/.mp3",
    "a/..mp3",
    "a/b.mp3/",
    "a/b.mp3/.",
    "a/b.mp3/..",
    "a/name.",
    "a/na.me.FlAc",
    "a b/c d/é.mp3",
    "a/b.mp3x",
    "a/.hidden.flac",
    "a/b.\u{212a}mp3",
    "//a//b//",
];

#[test]
fn paths_are_read_as_the_standard_library_reads_them() {
    for path in PATHS {
        assert_eq!(get_parent_directory_names(path), parents_by_path(path), "{:?}", path);
        assert_eq!(is_music_file(path), music_by_path(path), "{:?}", path);
    }
}
