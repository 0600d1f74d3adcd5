use lib_utils::config::{Config, DataSourceConfig};
use lib_utils::datasource::factory::{get_data_source_mode, DataSourceMode};
use lib_utils::datasource::local::LocalDataSource;
use lib_utils::datasource::types::{CoverSize, Pagination};
use lib_utils::log::{log_line, LogLevel};

fn config(mode: &str) -> Config {
    Config {
        ip: "127.0.0.1".to_string(),
        port: 8080,
        web_dir: "web".to_string(),
        music_dir: "/music".to_string(),
        db_path: "music.db".to_string(),
        data_source: DataSourceConfig { mode: mode.to_string() },
    }
}

#[test]
fn pages_start_and_end_inside_the_list() {
    let page = Pagination::new(3, 10);
    assert!(page.is_valid());
    assert_eq!(page.start(), 20);
    assert_eq!(page.end(25), 25);
    assert_eq!(page.end(100), 30);
    assert_eq!(page.safe_start(25), 25);
    assert_eq!(page.safe_start(30), 20);
    assert_eq!(Pagination::new(1, 10).start(), 0);
    assert_eq!(Pagination::new(1, 10).end(0), 0);
    assert!(!Pagination::new(0, 10).is_valid());
    assert!(!Pagination::new(1, 0).is_valid());
}

#[test]
fn cover_sizes_have_their_names() {
    assert_eq!(CoverSize::Small.as_str(), "small");
    assert_eq!(CoverSize::Medium.as_str(), "medium");
    assert_eq!(CoverSize::Large.as_str(), "large");
}

#[test]
fn the_mode_of_the_source_is_read_in_any_case() {
    assert_eq!(get_data_source_mode(&config("subsonic")), DataSourceMode::Subsonic);
    assert_eq!(get_data_source_mode(&config("SubSonic")), DataSourceMode::Subsonic);
    assert_eq!(get_data_source_mode(&config("local")), DataSourceMode::Local);
    assert_eq!(get_data_source_mode(&config("")), DataSourceMode::Local);
    assert_eq!(get_data_source_mode(&config("subsonic ")), DataSourceMode::Local);
}

#[test]
fn a_local_source_keeps_its_paths() {
    let source = LocalDataSource::new("/music".to_string(), "music.db".to_string());
    assert_eq!(source.music_dir, "/music");
    assert_eq!(source.db_path, "music.db");
}

#[test]
fn a_log_line_names_level_and_time() {
    assert_eq!(
        log_line(LogLevel::Info.name(), "2024-01-02 03:04:05", "done"),
        "<Info>[2024-01-02 03:04:05] {done}"
    );
    assert_eq!(LogLevel::Error.name(), "Error");
    assert_eq!(LogLevel::Warn.name(), "Warn");
    assert_eq!(LogLevel::Debug.name(), "Debug");
}
