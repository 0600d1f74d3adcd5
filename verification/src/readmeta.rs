//! What is decoded from one audio file, before it becomes rows of the store.

use crate::database::service::view_all;
use vstd::prelude::*;

verus! {

/// One parsed line of lyrics. The time is in milliseconds from the start.
#[derive(Debug, Clone, PartialEq, Eq)]
pub struct Lyric {
    pub time_ms: u64,
    pub text: String,
}

/// What a parsed [`Lyric`] line says.
pub struct LyricLineView {
    pub time_ms: nat,
    pub text: Seq<char>,
}

impl View for Lyric {
    type V = LyricLineView;

    open spec fn view(&self) -> LyricLineView {
        LyricLineView { time_ms: self.time_ms as nat, text: self.text@ }
    }
}

/// One image taken from a file, or derived from one. `base64` holds the raw
/// bytes of the image; they are encoded when the row is built.
#[derive(Debug, Clone, PartialEq, Eq)]
pub struct Cover {
    pub format: String,
    pub size: String,
    pub length: usize,
    pub width: u32,
    pub height: u32,
    pub base64: Vec<u8>,
}

/// What a decoded [`Cover`] holds.
pub struct ImageView {
    pub format: Seq<char>,
    pub size: Seq<char>,
    pub length: nat,
    pub width: nat,
    pub height: nat,
    pub bytes: Seq<u8>,
}

impl View for Cover {
    type V = ImageView;

    open spec fn view(&self) -> ImageView {
        ImageView {
            format: self.format@,
            size: self.size@,
            length: self.length as nat,
            width: self.width as nat,
            height: self.height as nat,
            bytes: self.base64@,
        }
    }
}

impl Cover {
    /// A copy of this image.
    pub fn dup(&self) -> (r: Cover)
        ensures
            r@ == self@,
    {
        Cover {
            format: self.format.clone(),
            size: self.size.clone(),
            length: self.length,
            width: self.width,
            height: self.height,
            base64: self.base64.clone(),
        }
    }
}

/// A tag of a file: the name of its key and its value.
#[derive(Debug, Clone, PartialEq, Eq)]
pub struct Pair {
    pub key: String,
    pub value: String,
}

/// The tags, stream parameters, images and lyrics decoded from one file. The
/// duration is in milliseconds.
#[derive(Debug, Clone, PartialEq, Eq)]
pub struct MyMetadata {
    pub title: String,
    pub artist: String,
    pub album: String,
    pub album_artist: String,
    pub year: String,
    pub genre: String,
    pub duration_ms: u64,
    pub track: String,
    pub language: String,
    pub bitrate: String,
    pub samplerate: String,
    pub disc: String,
    pub comment: String,
    pub covers: Vec<Cover>,
    pub lyrics: Vec<Lyric>,
}

/// What a [`MyMetadata`] holds.
pub struct DecodedView {
    pub title: Seq<char>,
    pub artist: Seq<char>,
    pub album: Seq<char>,
    pub album_artist: Seq<char>,
    pub year: Seq<char>,
    pub genre: Seq<char>,
    pub duration_ms: nat,
    pub track: Seq<char>,
    pub language: Seq<char>,
    pub bitrate: Seq<char>,
    pub samplerate: Seq<char>,
    pub disc: Seq<char>,
    pub comment: Seq<char>,
    pub covers: Seq<ImageView>,
    pub lyrics: Seq<LyricLineView>,
}

impl View for MyMetadata {
    type V = DecodedView;

    open spec fn view(&self) -> DecodedView {
        DecodedView {
            title: self.title@,
            artist: self.artist@,
            album: self.album@,
            album_artist: self.album_artist@,
            year: self.year@,
            genre: self.genre@,
            duration_ms: self.duration_ms as nat,
            track: self.track@,
            language: self.language@,
            bitrate: self.bitrate@,
            samplerate: self.samplerate@,
            disc: self.disc@,
            comment: self.comment@,
            covers: view_all(self.covers@),
            lyrics: view_all(self.lyrics@),
        }
    }
}

/// What nothing was decoded into: every text empty, no image, no line.
pub open spec fn empty_decoded() -> DecodedView {
    DecodedView {
        title: Seq::empty(),
        artist: Seq::empty(),
        album: Seq::empty(),
        album_artist: Seq::empty(),
        year: Seq::empty(),
        genre: Seq::empty(),
        duration_ms: 0,
        track: Seq::empty(),
        language: Seq::empty(),
        bitrate: Seq::empty(),
        samplerate: Seq::empty(),
        disc: Seq::empty(),
        comment: Seq::empty(),
        covers: Seq::empty(),
        lyrics: Seq::empty(),
    }
}

impl MyMetadata {
    /// A record with every text empty, no image and no line.
    pub fn empty() -> (r: MyMetadata)
        ensures
            r@ == empty_decoded(),
    {
        let r = MyMetadata {
            title: String::new(),
            artist: String::new(),
            album: String::new(),
            album_artist: String::new(),
            year: String::new(),
            genre: String::new(),
            duration_ms: 0,
            track: String::new(),
            language: String::new(),
            bitrate: String::new(),
            samplerate: String::new(),
            disc: String::new(),
            comment: String::new(),
            covers: Vec::new(),
            lyrics: Vec::new(),
        };
        assert(view_all(r.covers@) == Seq::<ImageView>::empty());
        assert(view_all(r.lyrics@) == Seq::<LyricLineView>::empty());
        r
    }
}

} // verus!
