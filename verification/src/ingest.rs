//! From a decoded file to its rows in a store: the errors of a scan, the
//! normalisation of what was decoded, and both steps together on a store in
//! memory.

use crate::comm::{file_name, file_name_chars, generate_random_string, is_alphanumeric, is_music_file, is_music_path};
use crate::database::covert::{augmented_genre, new_song};
use crate::database::service::{view_all, Metadata, MetadataView};
use crate::engine::{
    agrees, before_covers, has_ids_left, lemma_step_agrees, lemma_step_refused, no_room,
    reconcile_in_memory, reconciled, refuses_covers, served, steps_left, summarized, Input,
};
use crate::readmeta::{Cover, DecodedView, MyMetadata};
use crate::reconcile::{Action, ErrorView, Phase, ReconcileError, Reconciler, Reply, Summary};
use crate::store::{MemoryStore, Store};
use crate::tags::{covers_of, get_metadata, kept_of, RawProbe};
use crate::text::{from_chars, slashed, slashed_chars, strip_prefix, strip_prefix_chars, to_chars};
use vstd::prelude::*;

verus! {

/// Why a file was not taken into the store.
#[derive(Debug, Clone, Copy, PartialEq, Eq, Structural)]
pub enum IngestError {
    /// The file is no audio file that the library reads.
    NotMusic,
    /// The file could not be read or decoded.
    NoMetadata,
    /// The tags of the file hold no title.
    EmptyTitle,
    /// The store has no id left for an album or an artist of the file that it
    /// does not hold yet.
    StoreFull,
    /// The store had no room for the covers of the file. Song, album, artists
    /// and their links are written; the next scan adds the rest.
    CoversRefused,
}

impl IngestError {
    /// The words that stand for the error in a log.
    pub fn message(&self) -> (r: &'static str)
        ensures
            r@ == match *self {
                IngestError::NotMusic => "ignore file"@,
                IngestError::NoMetadata => "No metadata found"@,
                IngestError::EmptyTitle => "title is empty"@,
                IngestError::StoreFull => "no id left"@,
                IngestError::CoversRefused => "no room for the covers"@,
            },
    {
        match self {
            IngestError::NotMusic => "ignore file",
            IngestError::NoMetadata => "No metadata found",
            IngestError::EmptyTitle => "title is empty",
            IngestError::StoreFull => "no id left",
            IngestError::CoversRefused => "no room for the covers",
        }
    }
}

/// Why a file is not normalised, if it is not: its path is none of an audio
/// file, nothing was decoded of it, or what was decoded has no title.
pub open spec fn rejection(file_path: Seq<char>, decoded: Option<DecodedView>) -> Option<
    IngestError,
> {
    if !is_music_path(file_path) {
        Some(IngestError::NotMusic)
    } else if decoded is None {
        Some(IngestError::NoMetadata)
    } else if decoded->0.title.len() == 0 {
        Some(IngestError::EmptyTitle)
    } else {
        None
    }
}

/// What was decoded of a file, with the genre that its place adds.
pub open spec fn normalized(d: DecodedView, file_path: Seq<char>, music_dir: Seq<char>) -> DecodedView {
    DecodedView { genre: augmented_genre(d.genre, file_path, music_dir), ..d }
}

/// The name of the file at the end of a path, or nothing where the path ends
/// in none.
pub open spec fn file_name_or_empty(file_path: Seq<char>) -> Seq<char> {
    match file_name(file_path) {
        Some(name) => name,
        None => Seq::empty(),
    }
}

/// The song row of a file under the id `id`: built of what was decoded and
/// normalised, with the name of the file, its path, and its address, which is
/// the path without the music root before it; all three with forward slashes
/// only.
pub open spec fn song_row(
    d: DecodedView,
    file_path: Seq<char>,
    music_dir: Seq<char>,
    id: Seq<char>,
) -> MetadataView {
    MetadataView {
        file_name: slashed(file_name_or_empty(file_path)),
        file_path: slashed(file_path),
        file_url: slashed(strip_prefix(file_path, music_dir)),
        ..new_song(normalized(d, file_path, music_dir), id)
    }
}

/// Normalises what was decoded of the file at `file_path` and builds the row
/// of its song under the id `id`.
pub fn normalize(file_path: &str, music_dir: &str, decoded: Option<MyMetadata>, id: String) -> (r:
    Result<(MyMetadata, Metadata), IngestError>)
    ensures
        match r {
            Ok(pair) => {
                &&& rejection(file_path@, view_of_decoded(decoded)) is None
                &&& pair.0@ == normalized(decoded->0@, file_path@, music_dir@)
                &&& pair.1@ == song_row(decoded->0@, file_path@, music_dir@, id@)
            },
            Err(error) => rejection(file_path@, view_of_decoded(decoded)) == Some(error),
        },
{
    if !is_music_file(file_path) {
        return Err(IngestError::NotMusic);
    }
    let mut premetadata = match decoded {
        Some(d) => d,
        None => {
            return Err(IngestError::NoMetadata);
        },
    };
    if premetadata.title.as_str().unicode_len() == 0 {
        return Err(IngestError::EmptyTitle);
    }
    premetadata.build_genre(file_path, music_dir);
    let mut metadata = premetadata.song_from(id);
    let path = to_chars(file_path);
    let root = to_chars(music_dir);
    let name = match file_name_chars(&path) {
        Some(name) => name,
        None => Vec::new(),
    };
    metadata.file_name = from_chars(&slashed_chars(&name));
    metadata.file_path = from_chars(&slashed_chars(&path));
    metadata.file_url = from_chars(&slashed_chars(&strip_prefix_chars(&path, &root)));
    Ok((premetadata, metadata))
}

/// The view of what was decoded, if anything was.
pub open spec fn view_of_decoded(decoded: Option<MyMetadata>) -> Option<DecodedView> {
    match decoded {
        Some(d) => Some(d@),
        None => None,
    }
}

/// Normalises what was decoded of the file at `file_path` and builds the row
/// of its song under a fresh random id of nine letters and digits.
pub fn proc_metadata(file_path: &str, music_dir: &str, decoded: Option<MyMetadata>) -> (r: Result<
    (MyMetadata, Metadata),
    IngestError,
>)
    ensures
        match r {
            Ok(pair) => {
                &&& rejection(file_path@, view_of_decoded(decoded)) is None
                &&& pair.0@ == normalized(decoded->0@, file_path@, music_dir@)
                &&& pair.1@ == song_row(decoded->0@, file_path@, music_dir@, pair.1@.id)
                &&& pair.1@.id.len() == 9
                &&& forall|i: int| 0 <= i < 9 ==> is_alphanumeric(#[trigger] pair.1@.id[i])
            },
            Err(error) => rejection(file_path@, view_of_decoded(decoded)) == Some(error),
        },
{
    let id = generate_random_string(9);
    normalize(file_path, music_dir, decoded, id)
}

/// What is reconciled with the store for one file: what was decoded of it,
/// normalised; the row of its song under the id `id`; and its covers, which
/// are wanted.
pub open spec fn file_input(
    d: DecodedView,
    file_path: Seq<char>,
    music_dir: Seq<char>,
    id: Seq<char>,
    images: Seq<crate::readmeta::ImageView>,
) -> Input {
    Input {
        decoded: normalized(d, file_path, music_dir),
        song: song_row(d, file_path, music_dir, id),
        want_covers: true,
        images,
    }
}

/// Why a file is not taken into a store, if it is not: it is rejected, or
/// the store has no id left for its album or for one of its artists, and
/// does not hold that album or artist yet.
pub open spec fn refusal(store: Store, file_path: Seq<char>, decoded: Option<DecodedView>) -> Option<
    IngestError,
> {
    if rejection(file_path, decoded) is Some {
        rejection(file_path, decoded)
    } else if !has_ids_left(store, decoded->0) {
        Some(IngestError::StoreFull)
    } else {
        None
    }
}

/// Takes one file into a store in memory: normalises what was decoded of it
/// and reconciles it with the store, covers included. `images` are the
/// covers derived from the images of the file. The song gets a fresh random
/// id of nine characters, which it keeps only where the store does not hold
/// it yet.
///
/// A file that is refused leaves the store as it is. Where the store has no
/// room for the covers that are to be added, the scan is given up at that
/// step: what the steps before wrote stays, and neither cover nor lyric is
/// written.
pub fn read_metadata_into_db(
    store: &mut MemoryStore,
    file_path: &str,
    music_dir: &str,
    decoded: Option<MyMetadata>,
    images: &Vec<Cover>,
) -> (r: Result<Summary, IngestError>)
    ensures
        match r {
            Ok(summary) => {
                &&& refusal(old(store)@, file_path@, view_of_decoded(decoded)) is None
                &&& exists|id: Seq<char>|
                    id.len() == 9 && final(store)@ == reconciled(
                        old(store)@,
                        #[trigger] file_input(
                            decoded->0@,
                            file_path@,
                            music_dir@,
                            id,
                            view_all(images@),
                        ),
                    ) && summary@ == summarized(
                        old(store)@,
                        file_input(decoded->0@, file_path@, music_dir@, id, view_all(images@)),
                    ) && !refuses_covers(
                        old(store)@,
                        file_input(decoded->0@, file_path@, music_dir@, id, view_all(images@)),
                    )
            },
            Err(IngestError::CoversRefused) => {
                &&& refusal(old(store)@, file_path@, view_of_decoded(decoded)) is None
                &&& exists|id: Seq<char>|
                    id.len() == 9 && final(store)@ == before_covers(
                        old(store)@,
                        #[trigger] file_input(
                            decoded->0@,
                            file_path@,
                            music_dir@,
                            id,
                            view_all(images@),
                        ),
                    ) && refuses_covers(
                        old(store)@,
                        file_input(decoded->0@, file_path@, music_dir@, id, view_all(images@)),
                    )
            },
            Err(error) => {
                &&& refusal(old(store)@, file_path@, view_of_decoded(decoded)) == Some(error)
                &&& final(store)@ == old(store)@
            },
        },
{
    match proc_metadata(file_path, music_dir, decoded) {
        Err(error) => Err(error),
        Ok(pair) => {
            let (premetadata, metadata) = pair;
            if !store.has_ids_left(&premetadata) {
                return Err(IngestError::StoreFull);
            }
            let ghost input = Input {
                decoded: premetadata@,
                song: metadata@,
                want_covers: true,
                images: view_all(images@),
            };
            let outcome = reconcile_in_memory(store, premetadata, metadata, true, images);
            assert(input == file_input(
                decoded->0@,
                file_path@,
                music_dir@,
                input.song.id,
                view_all(images@),
            ));
            match outcome {
                Ok(summary) => Ok(summary),
                Err(_) => Err(IngestError::CoversRefused),
            }
        },
    }
}

/// What is kept of a probed file for its tags and stream, if the file could
/// be probed at all.
pub open spec fn decoded_of_probe(probed: Option<&RawProbe>) -> Option<DecodedView> {
    match probed {
        Some(probe) => Some(kept_of(*probe, false)),
        None => None,
    }
}

/// Reconciles one probed file with a store in memory: runs the machine
/// against the store until it ends. The copies of the cover are derived of
/// the images of the file only when the machine asks for them, so a file
/// whose album has both covers is never decoded for its images.
pub fn reconcile_probe(
    store: &mut MemoryStore,
    decoded: MyMetadata,
    song: Metadata,
    probe: &RawProbe,
) -> (r: Result<Summary, ReconcileError>)
    requires
        has_ids_left(old(store)@, decoded@),
    ensures
        match r {
            Ok(summary) => {
                let input = Input {
                    decoded: decoded@,
                    song: song@,
                    want_covers: true,
                    images: covers_of(*probe, true),
                };
                &&& !refuses_covers(old(store)@, input)
                &&& final(store)@ == reconciled(old(store)@, input)
                &&& summary@ == summarized(old(store)@, input)
            },
            Err(error) => {
                let input = Input {
                    decoded: decoded@,
                    song: song@,
                    want_covers: true,
                    images: covers_of(*probe, true),
                };
                &&& refuses_covers(old(store)@, input)
                &&& final(store)@ == before_covers(old(store)@, input)
                &&& error@ == ErrorView::Store(no_room())
            },
        },
{
    let ghost start = store@;
    let ghost input = Input {
        decoded: decoded@,
        song: song@,
        want_covers: true,
        images: covers_of(*probe, true),
    };
    let none: Vec<Cover> = Vec::new();
    let (first, asked) = Reconciler::start(decoded, song, true);
    let mut m = first;
    let mut action = asked;
    loop
        invariant
            start == old(store)@,
            input == (Input {
                decoded: decoded@,
                song: song@,
                want_covers: true,
                images: covers_of(*probe, true),
            }),
            agrees(m@, action@, store@, start, input),
        decreases steps_left(m@, input),
    {
        if let Action::Finish { summary } = action {
            assert(m@.phase == Phase::Done);
            assert(store@ == reconciled(start, input));
            return Ok(summary);
        }
        let ghost refused = m@.phase == Phase::CoverInsert && refuses_covers(start, input);
        let ghost before = store@;
        proof {
            if refused {
                lemma_step_refused(m@, action@, store@, start, input);
            } else {
                lemma_step_agrees(m@, action@, store@, start, input);
            }
        }
        let reply = match &action {
            Action::ReadCovers => match get_metadata(probe, true) {
                Some(read) => Reply::Images(read.covers),
                None => Reply::Failed(String::new()),
            },
            asked => store.serve(asked, &none),
        };
        assert((store@, reply@) == served(before, action@, input.images));
        let (after, asks) = m.step(reply);
        m = after;
        action = asks;
        if let Action::Abort { error } = action {
            assert(refused);
            return Err(error);
        }
        assert(!refused);
    }
}

/// Takes one probed file into a store in memory: keeps of the probe what its
/// tags and stream say, normalises it, and reconciles it with the store,
/// covers included. `probed` is what a decoder found in the file, or nothing
/// where the file could not be opened or probed. The images of the file are
/// decoded and resized only when the reconciliation asks for the covers.
///
/// A file that is refused leaves the store as it is. Where the store has no
/// room for the covers that are to be added, the scan is given up at that
/// step: what the steps before wrote stays, and neither cover nor lyric is
/// written.
pub fn read_probe_into_db(
    store: &mut MemoryStore,
    file_path: &str,
    music_dir: &str,
    probed: Option<&RawProbe>,
) -> (r: Result<Summary, IngestError>)
    ensures
        match r {
            Ok(summary) => {
                &&& refusal(old(store)@, file_path@, decoded_of_probe(probed)) is None
                &&& exists|id: Seq<char>|
                    id.len() == 9 && final(store)@ == reconciled(
                        old(store)@,
                        #[trigger] file_input(
                            kept_of(*probed->0, false),
                            file_path@,
                            music_dir@,
                            id,
                            covers_of(*probed->0, true),
                        ),
                    ) && summary@ == summarized(
                        old(store)@,
                        file_input(
                            kept_of(*probed->0, false),
                            file_path@,
                            music_dir@,
                            id,
                            covers_of(*probed->0, true),
                        ),
                    ) && !refuses_covers(
                        old(store)@,
                        file_input(
                            kept_of(*probed->0, false),
                            file_path@,
                            music_dir@,
                            id,
                            covers_of(*probed->0, true),
                        ),
                    )
            },
            Err(IngestError::CoversRefused) => {
                &&& refusal(old(store)@, file_path@, decoded_of_probe(probed)) is None
                &&& exists|id: Seq<char>|
                    id.len() == 9 && final(store)@ == before_covers(
                        old(store)@,
                        #[trigger] file_input(
                            kept_of(*probed->0, false),
                            file_path@,
                            music_dir@,
                            id,
                            covers_of(*probed->0, true),
                        ),
                    ) && refuses_covers(
                        old(store)@,
                        file_input(
                            kept_of(*probed->0, false),
                            file_path@,
                            music_dir@,
                            id,
                            covers_of(*probed->0, true),
                        ),
                    )
            },
            Err(error) => {
                &&& refusal(old(store)@, file_path@, decoded_of_probe(probed)) == Some(error)
                &&& final(store)@ == old(store)@
            },
        },
{
    let decoded = match probed {
        Some(probe) => get_metadata(probe, false),
        None => None,
    };
    assert(view_of_decoded(decoded) == decoded_of_probe(probed));
    match proc_metadata(file_path, music_dir, decoded) {
        Err(error) => Err(error),
        Ok(pair) => {
            let (premetadata, metadata) = pair;
            if !store.has_ids_left(&premetadata) {
                return Err(IngestError::StoreFull);
            }
            let probe = match probed {
                Some(probe) => probe,
                None => {
                    return Err(IngestError::NoMetadata);
                },
            };
            let ghost input = Input {
                decoded: premetadata@,
                song: metadata@,
                want_covers: true,
                images: covers_of(*probe, true),
            };
            let outcome = reconcile_probe(store, premetadata, metadata, probe);
            assert(input == file_input(
                kept_of(*probe, false),
                file_path@,
                music_dir@,
                input.song.id,
                covers_of(*probe, true),
            ));
            match outcome {
                Ok(summary) => Ok(summary),
                Err(_) => Err(IngestError::CoversRefused),
            }
        },
    }
}


} // verus!
