use image::{DynamicImage, ImageFormat, RgbImage};
use lib_utils::readmeta::{Cover, Lyric, MyMetadata, Pair};
use lib_utils::tags::{
    apply_tag, fold_duration, get_key_tag_value, get_metadata, pack_meta_from_track_flow,
    proc_cover, proc_tags, RawImage, RawProbe, RawTag, Revision, StreamTime, TrackInfo,
};
use std::io::Cursor;

fn tag(key: Option<&str>, text: Option<&str>) -> RawTag {
    RawTag { std_key: key.map(|k| k.to_string()), text: text.map(|t| t.to_string()) }
}

fn pair(key: &str, value: &str) -> Pair {
    Pair { key: key.to_string(), value: value.to_string() }
}

fn png(width: u32, height: u32) -> Vec<u8> {
    let mut bytes = Vec::new();
    DynamicImage::ImageRgb8(RgbImage::new(width, height))
        .write_to(&mut Cursor::new(&mut bytes), ImageFormat::Png)
        .unwrap();
    bytes
}

fn revision(tags: Vec<RawTag>, visuals: Vec<RawImage>) -> Revision {
    Revision { tags, visuals }
}

#[test]
fn tags_without_a_standard_key_are_left_out() {
    let tags = vec![
        tag(Some("TrackTitle"), Some("Song A")),
        tag(None, Some("ignored")),
        tag(Some("Artist"), None),
        tag(Some(""), Some("empty key")),
    ];
    assert_eq!(proc_tags(&tags), vec![pair("TrackTitle", "Song A"), pair("Artist", "unknown")]);
    assert_eq!(get_key_tag_value("k", &None), pair("k", "unknown"));
    assert_eq!(get_key_tag_value("k", &Some("v".to_string())), pair("k", "v"));
}

#[test]
fn each_known_key_sets_its_field() {
    let mut d = MyMetadata::empty();
    for (key, value) in [
        ("Album", "al"),
        ("AlbumArtist", "aa"),
        ("ARTIST", "ar"),
        ("TrackTitle", "ti"),
        ("Date", "2001"),
        ("Genre", "ge"),
        ("TrackNumber", "3/12"),
        ("DiscNumber", "1"),
        ("Language", "en"),
        ("Comment", "co"),
        ("Lyrics", "[00:01.00]la\n\nplain"),
        ("Composer", "nobody"),
    ] {
        apply_tag(&mut d, &pair(key, value));
    }
    let mut expected = MyMetadata::empty();
    expected.album = "al".to_string();
    expected.album_artist = "aa".to_string();
    expected.artist = "ar".to_string();
    expected.title = "ti".to_string();
    expected.year = "2001".to_string();
    expected.genre = "ge".to_string();
    expected.track = "3/12".to_string();
    expected.disc = "1".to_string();
    expected.language = "en".to_string();
    expected.comment = "co".to_string();
    expected.lyrics = vec![
        Lyric { time_ms: 1000, text: "la".to_string() },
        Lyric { time_ms: 0, text: "plain".to_string() },
    ];
    assert_eq!(d, expected);
    apply_tag(&mut d, &pair("year", "1999"));
    assert_eq!(d.year, "1999");
}

#[test]
fn the_duration_is_folded_into_milliseconds() {
    assert_eq!(fold_duration(StreamTime { seconds: 3725, millis: 250 }), 3_725_250);
    assert_eq!(fold_duration(StreamTime { seconds: 0, millis: 0 }), 0);
    assert_eq!(fold_duration(StreamTime { seconds: 59, millis: 1000 }), 60_000);
    assert_eq!(fold_duration(StreamTime { seconds: u64::MAX, millis: 5 }), u64::MAX);
}

#[test]
fn the_first_track_sets_what_it_has() {
    let mut d = MyMetadata::empty();
    d.language = "from tag".to_string();
    let track = TrackInfo {
        language: None,
        bits_per_sample: Some(16),
        sample_rate: Some(44100),
        time: Some(StreamTime { seconds: 185, millis: 250 }),
    };
    pack_meta_from_track_flow(&Some(track), &mut d);
    assert_eq!(d.language, "from tag");
    assert_eq!(d.bitrate, "16");
    assert_eq!(d.samplerate, "44100");
    assert_eq!(d.duration_ms, 185_250);
    let before = d.clone();
    pack_meta_from_track_flow(&None, &mut d);
    assert_eq!(d, before);
    let bare = TrackInfo {
        language: Some("de".to_string()),
        bits_per_sample: None,
        sample_rate: None,
        time: None,
    };
    pack_meta_from_track_flow(&Some(bare), &mut d);
    assert_eq!(d.language, "de");
    assert_eq!(d.duration_ms, 185_250);
}

#[test]
fn the_last_image_is_the_cover() {
    let visuals = vec![
        RawImage { media_type: "image/png".to_string(), dimensions: Some((10, 20)), data: vec![1] },
        RawImage { media_type: "IMAGE/JPEG".to_string(), dimensions: None, data: vec![2, 3] },
    ];
    assert_eq!(
        proc_cover(&visuals, true),
        Some(Cover {
            format: "jpeg".to_string(),
            size: "original".to_string(),
            length: 2,
            width: 10,
            height: 20,
            base64: vec![2, 3],
        })
    );
    assert_eq!(proc_cover(&visuals, false), None);
    assert_eq!(proc_cover(&vec![], true), None);
    let odd = vec![RawImage { media_type: "ÄB".to_string(), dimensions: None, data: vec![] }];
    assert_eq!(proc_cover(&odd, true).unwrap().format, "äb");
}

#[test]
fn the_metadata_of_the_container_is_read_before_that_of_the_probe() {
    let probe = RawProbe {
        container: Some(revision(vec![tag(Some("TrackTitle"), Some("inner"))], vec![])),
        probed: Some(revision(vec![tag(Some("TrackTitle"), Some("outer"))], vec![])),
        track: None,
    };
    assert_eq!(get_metadata(&probe, false).unwrap().title, "inner");
    let probe = RawProbe {
        container: None,
        probed: Some(revision(vec![tag(Some("TrackTitle"), Some("outer"))], vec![])),
        track: None,
    };
    assert_eq!(get_metadata(&probe, true).unwrap().title, "outer");
    let probe = RawProbe { container: None, probed: None, track: None };
    assert_eq!(get_metadata(&probe, true), Some(MyMetadata::empty()));
}

#[test]
fn a_file_without_tags_still_has_what_its_stream_says() {
    let probe = RawProbe {
        container: None,
        probed: None,
        track: Some(TrackInfo {
            language: Some("fr".to_string()),
            bits_per_sample: Some(24),
            sample_rate: Some(96000),
            time: Some(StreamTime { seconds: 61, millis: 5 }),
        }),
    };
    let mut expected = MyMetadata::empty();
    expected.language = "fr".to_string();
    expected.bitrate = "24".to_string();
    expected.samplerate = "96000".to_string();
    expected.duration_ms = 61_005;
    assert_eq!(get_metadata(&probe, false), Some(expected.clone()));
    assert_eq!(get_metadata(&probe, true), Some(expected));
}

#[test]
fn covers_are_derived_only_where_they_are_wanted() {
    let visuals = vec![RawImage {
        media_type: "image/png".to_string(),
        dimensions: None,
        data: png(30, 60),
    }];
    let probe = RawProbe {
        container: Some(revision(vec![tag(Some("TrackTitle"), Some("t"))], visuals)),
        probed: None,
        track: Some(TrackInfo {
            language: None,
            bits_per_sample: None,
            sample_rate: Some(48000),
            time: None,
        }),
    };
    let plain = get_metadata(&probe, false).unwrap();
    assert_eq!(plain.covers, vec![]);
    assert_eq!(plain.samplerate, "48000");
    let full = get_metadata(&probe, true).unwrap();
    assert_eq!(full.covers.len(), 2);
    assert_eq!(full.covers[0].size, "small");
    assert_eq!((full.covers[0].width, full.covers[0].height), (70, 140));
    assert_eq!(full.covers[1].size, "medium");
    assert_eq!(full.title, "t");
}
