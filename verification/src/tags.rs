//! From the tags, images and stream of a file, as a decoder hands them out,
//! to what the library keeps of the file.

use crate::cover::{derive_covers, derived_covers, is_copy, MEDIUM_EDGE, SMALL_EDGE};
use crate::database::service::view_all;
use crate::lyric::{parsed_lyrics, proc_lyrics};
use crate::readmeta::{empty_decoded, Cover, DecodedView, ImageView, MyMetadata, Pair};
use crate::text::{
    chars_are, decimal, decimal_chars, fold, fold_chars, from_chars, lower_case, lowercased,
    replace_chars, replaced, to_chars,
};
use vstd::prelude::*;

verus! {

/// A tag, as a decoder hands it out: the name of its standard key, if it has
/// one, and its value, if that is text.
#[derive(Debug, Clone, PartialEq, Eq)]
pub struct RawTag {
    pub std_key: Option<String>,
    pub text: Option<String>,
}

/// An image, as a decoder hands it out.
#[derive(Debug, Clone, PartialEq, Eq)]
pub struct RawImage {
    /// The media type of the bytes, such as `image/jpeg`.
    pub media_type: String,
    /// The width and height that the file declares, if it does.
    pub dimensions: Option<(u32, u32)>,
    /// The bytes of the image.
    pub data: Vec<u8>,
}

/// A point in time of a stream: whole seconds and thousandths of a second.
#[derive(Debug, Clone, Copy, PartialEq, Eq, Structural)]
pub struct StreamTime {
    pub seconds: u64,
    pub millis: u32,
}

/// The first track of a file, as a decoder hands it out.
#[derive(Debug, Clone, PartialEq, Eq)]
pub struct TrackInfo {
    pub language: Option<String>,
    pub bits_per_sample: Option<u32>,
    pub sample_rate: Option<u32>,
    /// The length of the stream, where the track has a time base.
    pub time: Option<StreamTime>,
}

/// One revision of the metadata of a file.
#[derive(Debug, Clone, PartialEq, Eq)]
pub struct Revision {
    pub tags: Vec<RawTag>,
    pub visuals: Vec<RawImage>,
}

/// What a decoder found in a file.
#[derive(Debug, Clone, PartialEq, Eq)]
pub struct RawProbe {
    /// The metadata of the container, if it has any.
    pub container: Option<Revision>,
    /// The metadata found while the format was probed, if any was.
    pub probed: Option<Revision>,
    /// The first track, if the file has one.
    pub track: Option<TrackInfo>,
}

impl View for Pair {
    type V = (Seq<char>, Seq<char>);

    open spec fn view(&self) -> (Seq<char>, Seq<char>) {
        (self.key@, self.value@)
    }
}

/// The text of a value that may be missing.
pub open spec fn text_of(text: Option<String>) -> Option<Seq<char>> {
    match text {
        Some(text) => Some(text@),
        None => None,
    }
}

/// The pair of a tag: its standard key and its text, or `unknown` where its
/// value is no text. A tag without a standard key, or with an empty one, has
/// none.
pub open spec fn pair_of(tag: RawTag) -> Option<(Seq<char>, Seq<char>)> {
    match text_of(tag.std_key) {
        Some(key) => if key.len() == 0 {
            None
        } else {
            Some(
                (
                    key,
                    match text_of(tag.text) {
                        Some(text) => text,
                        None => "unknown"@,
                    },
                ),
            )
        },
        None => None,
    }
}

/// The pairs of the tags that have one, in order.
pub open spec fn pairs_of(tags: Seq<RawTag>) -> Seq<(Seq<char>, Seq<char>)>
    decreases tags.len(),
{
    if tags.len() == 0 {
        Seq::empty()
    } else {
        match pair_of(tags.last()) {
            Some(pair) => pairs_of(tags.drop_last()).push(pair),
            None => pairs_of(tags.drop_last()),
        }
    }
}

/// What one tag sets. The key counts in any case of letters; a key that the
/// library does not know sets nothing.
pub open spec fn with_tag(d: DecodedView, key: Seq<char>, value: Seq<char>) -> DecodedView {
    let k = fold(key);
    if k == "album"@ {
        DecodedView { album: value, ..d }
    } else if k == "albumartist"@ {
        DecodedView { album_artist: value, ..d }
    } else if k == "artist"@ {
        DecodedView { artist: value, ..d }
    } else if k == "tracktitle"@ {
        DecodedView { title: value, ..d }
    } else if k == "date"@ || k == "year"@ {
        DecodedView { year: value, ..d }
    } else if k == "genre"@ {
        DecodedView { genre: value, ..d }
    } else if k == "tracknumber"@ {
        DecodedView { track: value, ..d }
    } else if k == "discnumber"@ {
        DecodedView { disc: value, ..d }
    } else if k == "language"@ {
        DecodedView { language: value, ..d }
    } else if k == "comment"@ {
        DecodedView { comment: value, ..d }
    } else if k == "lyrics"@ {
        DecodedView { lyrics: parsed_lyrics(value), ..d }
    } else {
        d
    }
}

/// What the tags set, one after the other: a later tag of a key wins.
pub open spec fn with_tags(d: DecodedView, pairs: Seq<(Seq<char>, Seq<char>)>) -> DecodedView
    decreases pairs.len(),
{
    if pairs.len() == 0 {
        d
    } else {
        with_tag(with_tags(d, pairs.drop_last()), pairs.last().0, pairs.last().1)
    }
}

/// The length of a stream in milliseconds, or the greatest number that fits
/// where it is longer.
pub open spec fn folded(time: StreamTime) -> nat {
    if time.seconds * 1000 + time.millis > u64::MAX {
        u64::MAX as nat
    } else {
        (time.seconds * 1000 + time.millis) as nat
    }
}

/// What the first track sets: the language, the bits of a sample as the bit
/// rate, the sample rate, and the duration, each where the track has it.
pub open spec fn with_track(d: DecodedView, track: Option<TrackInfo>) -> DecodedView {
    match track {
        None => d,
        Some(t) => DecodedView {
            language: match t.language {
                Some(language) => language@,
                None => d.language,
            },
            bitrate: match t.bits_per_sample {
                Some(bits) => decimal(bits as nat),
                None => d.bitrate,
            },
            samplerate: match t.sample_rate {
                Some(rate) => decimal(rate as nat),
                None => d.samplerate,
            },
            duration_ms: match t.time {
                Some(time) => folded(time),
                None => d.duration_ms,
            },
            ..d
        },
    }
}

/// The width and height that the last image that declares them declares, or
/// zero.
pub open spec fn declared_size(visuals: Seq<RawImage>) -> (nat, nat)
    decreases visuals.len(),
{
    if visuals.len() == 0 {
        (0, 0)
    } else {
        match visuals.last().dimensions {
            Some(size) => (size.0 as nat, size.1 as nat),
            None => declared_size(visuals.drop_last()),
        }
    }
}

/// The cover that is taken of the images of a file: the bytes of the last
/// one, under its media type in lower case without `image/`.
pub open spec fn original_of(visuals: Seq<RawImage>) -> ImageView {
    ImageView {
        format: replaced(lowercased(visuals.last().media_type@), "image/"@, ""@),
        size: "original"@,
        length: visuals.last().data@.len(),
        width: declared_size(visuals).0,
        height: declared_size(visuals).1,
        bytes: visuals.last().data@,
    }
}

/// The revision that is read: that of the container where it has one.
pub open spec fn chosen(probe: RawProbe) -> Option<Revision> {
    if probe.container is Some {
        probe.container
    } else {
        probe.probed
    }
}

/// The pair of a key and a value that may be no text.
pub fn get_key_tag_value(key: &str, value: &Option<String>) -> (r: Pair)
    ensures
        r@ == (
            key@,
            match text_of(*value) {
                Some(text) => text,
                None => "unknown"@,
            },
        ),
{
    match value {
        Some(text) => Pair { key: key.to_owned(), value: text.clone() },
        None => Pair { key: key.to_owned(), value: "unknown".to_owned() },
    }
}

/// The pairs of the tags that have a standard key.
pub fn proc_tags(tags: &Vec<RawTag>) -> (r: Vec<Pair>)
    ensures
        view_all(r@) == pairs_of(tags@),
{
    let mut pairs: Vec<Pair> = Vec::new();
    let mut i: usize = 0;
    assert(tags@.take(0) == Seq::<RawTag>::empty());
    while i < tags.len()
        invariant
            i <= tags.len(),
            view_all(pairs@) == pairs_of(tags@.take(i as int)),
        decreases tags.len() - i,
    {
        let tag = &tags[i];
        assert(tags@.take(i + 1).drop_last() == tags@.take(i as int));
        assert(tags@.take(i + 1).last() == *tag);
        if let Some(key) = &tag.std_key {
            if key.as_str().unicode_len() > 0 {
                let pair = get_key_tag_value(key.as_str(), &tag.text);
                let ghost before = view_all(pairs@);
                pairs.push(pair);
                assert(view_all(pairs@) == before.push(pair@));
            }
        }
        i = i + 1;
    }
    assert(tags@.take(i as int) == tags@);
    pairs
}

/// Sets what one tag says.
pub fn apply_tag(metadata: &mut MyMetadata, pair: &Pair)
    ensures
        final(metadata)@ == with_tag(old(metadata)@, pair@.0, pair@.1),
{
    let key = fold_chars(&to_chars(pair.key.as_str()));
    let value = pair.value.clone();
    if chars_are(&key, "album") {
        metadata.album = value;
    } else if chars_are(&key, "albumartist") {
        metadata.album_artist = value;
    } else if chars_are(&key, "artist") {
        metadata.artist = value;
    } else if chars_are(&key, "tracktitle") {
        metadata.title = value;
    } else if chars_are(&key, "date") || chars_are(&key, "year") {
        metadata.year = value;
    } else if chars_are(&key, "genre") {
        metadata.genre = value;
    } else if chars_are(&key, "tracknumber") {
        metadata.track = value;
    } else if chars_are(&key, "discnumber") {
        metadata.disc = value;
    } else if chars_are(&key, "language") {
        metadata.language = value;
    } else if chars_are(&key, "comment") {
        metadata.comment = value;
    } else if chars_are(&key, "lyrics") {
        metadata.lyrics = proc_lyrics(value.as_str());
    }
}

/// The cover that is taken of the images of a file, where covers are wanted
/// and the file has an image.
pub fn proc_cover(visuals: &Vec<RawImage>, is_proc_cover: bool) -> (r: Option<Cover>)
    ensures
        match r {
            Some(cover) => is_proc_cover && visuals@.len() > 0 && cover@ == original_of(visuals@),
            None => !is_proc_cover || visuals@.len() == 0,
        },
{
    if !is_proc_cover || visuals.len() == 0 {
        return None;
    }
    let mut width: u32 = 0;
    let mut height: u32 = 0;
    let mut i: usize = 0;
    assert(visuals@.take(0) == Seq::<RawImage>::empty());
    while i < visuals.len()
        invariant
            i <= visuals.len(),
            (width as nat, height as nat) == declared_size(visuals@.take(i as int)),
        decreases visuals.len() - i,
    {
        assert(visuals@.take(i + 1).drop_last() == visuals@.take(i as int));
        assert(visuals@.take(i + 1).last() == visuals@[i as int]);
        if let Some(size) = visuals[i].dimensions {
            width = size.0;
            height = size.1;
        }
        i = i + 1;
    }
    assert(visuals@.take(i as int) == visuals@);
    let last = &visuals[visuals.len() - 1];
    let lower = to_chars(lower_case(last.media_type.as_str()).as_str());
    let format = replace_chars(&lower, &to_chars("image/"), &to_chars(""));
    Some(
        Cover {
            format: from_chars(&format),
            size: "original".to_owned(),
            length: last.data.len(),
            width,
            height,
            base64: last.data.clone(),
        },
    )
}

/// The length of a stream in milliseconds.
pub fn fold_duration(time: StreamTime) -> (r: u64)
    ensures
        r == folded(time),
{
    let whole: u128 = (time.seconds as u128) * 1000 + (time.millis as u128);
    if whole > u64::MAX as u128 {
        u64::MAX
    } else {
        whole as u64
    }
}

/// Sets what the first track says: language, bit rate, sample rate and
/// duration.
pub fn pack_meta_from_track_flow(track: &Option<TrackInfo>, metadata: &mut MyMetadata)
    ensures
        final(metadata)@ == with_track(old(metadata)@, *track),
{
    match track {
        None => {},
        Some(t) => {
            if let Some(language) = &t.language {
                metadata.language = language.clone();
            }
            if let Some(bits) = t.bits_per_sample {
                metadata.bitrate = from_chars(&decimal_chars(bits as u64));
            }
            if let Some(rate) = t.sample_rate {
                metadata.samplerate = from_chars(&decimal_chars(rate as u64));
            }
            if let Some(time) = t.time {
                metadata.duration_ms = fold_duration(time);
            }
        },
    }
}

/// The tags that are read: those of the chosen revision, or none where the
/// file has no metadata.
pub open spec fn tags_of(probe: RawProbe) -> Seq<RawTag> {
    match chosen(probe) {
        Some(revision) => revision.tags@,
        None => Seq::empty(),
    }
}

/// The images that are read: those of the chosen revision, or none where the
/// file has no metadata.
pub open spec fn visuals_of(probe: RawProbe) -> Seq<RawImage> {
    match chosen(probe) {
        Some(revision) => revision.visuals@,
        None => Seq::empty(),
    }
}

/// What the tags and the first track of a file say, with no cover yet. A
/// file without metadata still has what its first track says.
pub open spec fn decoded_of(probe: RawProbe) -> DecodedView {
    with_track(with_tags(empty_decoded(), pairs_of(tags_of(probe))), probe.track)
}

/// The copies of the cover of a file: those derived of the bytes of its last
/// image, where covers are wanted and the file has an image, else none.
pub open spec fn covers_of(probe: RawProbe, is_proc_cover: bool) -> Seq<ImageView> {
    if is_proc_cover && visuals_of(probe).len() > 0 {
        derived_covers(original_of(visuals_of(probe)).bytes)
    } else {
        Seq::empty()
    }
}

/// What the library keeps of a file: what its tags and its first track say,
/// with the copies of its cover.
pub open spec fn kept_of(probe: RawProbe, is_proc_cover: bool) -> DecodedView {
    DecodedView { covers: covers_of(probe, is_proc_cover), ..decoded_of(probe) }
}

/// The revision that is read. See [`chosen`].
fn chosen_revision(probed: &RawProbe) -> (r: Option<&Revision>)
    ensures
        match r {
            Some(revision) => chosen(*probed) == Some(*revision),
            None => chosen(*probed) is None,
        },
{
    match &probed.container {
        Some(revision) => Some(revision),
        None => match &probed.probed {
            Some(revision) => Some(revision),
            None => None,
        },
    }
}

/// What the library keeps of a file: what its tags and its first track say
/// and, where covers are wanted and the file has an image, the copies of its
/// cover that can be made. A file without metadata gives a record all the
/// same: every tag is empty, and duration, bit rate, sample rate and language
/// are those of its first track.
pub fn get_metadata(probed: &RawProbe, is_proc_cover: bool) -> (r: Option<MyMetadata>)
    ensures
        r is Some,
        r->0@ == kept_of(*probed, is_proc_cover),
        ({
            let covers = r->0@.covers;
            &&& covers.len() <= 2
            &&& covers.len() == 1 ==> is_copy(covers[0], SMALL_EDGE as nat) || is_copy(
                covers[0],
                MEDIUM_EDGE as nat,
            )
            &&& covers.len() == 2 ==> is_copy(covers[0], SMALL_EDGE as nat) && is_copy(
                covers[1],
                MEDIUM_EDGE as nat,
            )
        }),
{
    let revision = chosen_revision(probed);
    let pairs = match revision {
        Some(revision) => proc_tags(&revision.tags),
        None => {
            let none: Vec<Pair> = Vec::new();
            assert(view_all(none@) == pairs_of(Seq::<RawTag>::empty()));
            none
        },
    };
    let mut metadata = MyMetadata::empty();
    let mut i: usize = 0;
    assert(view_all(pairs@).take(0) == Seq::<(Seq<char>, Seq<char>)>::empty());
    while i < pairs.len()
        invariant
            i <= pairs.len(),
            metadata@ == with_tags(empty_decoded(), view_all(pairs@).take(i as int)),
            metadata@.covers.len() == 0,
        decreases pairs.len() - i,
    {
        assert(view_all(pairs@).take(i + 1).drop_last() == view_all(pairs@).take(i as int));
        assert(view_all(pairs@).take(i + 1).last() == pairs@[i as int]@);
        apply_tag(&mut metadata, &pairs[i]);
        i = i + 1;
    }
    assert(view_all(pairs@).take(i as int) == view_all(pairs@));
    assert(metadata@.covers == Seq::<ImageView>::empty());
    if let Some(revision) = revision {
        if let Some(cover) = proc_cover(&revision.visuals, is_proc_cover) {
            metadata.covers = derive_covers(&cover);
        }
    }
    pack_meta_from_track_flow(&probed.track, &mut metadata);
    Some(metadata)
}

} // verus!
