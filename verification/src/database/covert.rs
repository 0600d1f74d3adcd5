//! From what was decoded of a file to the rows that stand for it.

use crate::comm::{generate_random_string, is_alphanumeric, parent_directory_chars, parent_directory_names};
use crate::database::service::{
    view_all, Album, AlbumSong, AlbumSongView, AlbumView, Artist, ArtistSong, ArtistSongView,
    ArtistView, Cover, CoverView, Lyric, LyricView, Metadata, MetadataView,
};
use crate::readmeta::{DecodedView, ImageView, LyricLineView, MyMetadata};
use crate::text::{
    append_chars, contains_chars, contains_sub, from_chars, join, join_chars, split, split_chars,
    strings_of, to_chars, trim, trim_chars, views, words,
};
use vstd::prelude::*;

verus! {

/// The names in a raw artist text: its pieces between `/`, trimmed, without
/// the empty ones.
pub open spec fn artist_names(artist: Seq<char>) -> Seq<Seq<char>> {
    words(split(artist, seq!['/']))
}

/// The tags in a genre text: its pieces between `,`, trimmed, without the
/// empty ones.
pub open spec fn genre_names(genre: Seq<char>) -> Seq<Seq<char>> {
    words(split(genre, seq![',']))
}

/// The artists of a song: the names in its artist text or, where it holds
/// none, the text itself as the one name.
pub open spec fn song_artists(artist: Seq<char>) -> Seq<Seq<char>> {
    if artist_names(artist).len() == 0 {
        seq![artist]
    } else {
        artist_names(artist)
    }
}

/// The first artist of a song.
pub open spec fn primary_artist(artist: Seq<char>) -> Seq<char> {
    song_artists(artist)[0]
}

/// An artist row that has no id yet.
pub open spec fn new_artist(name: Seq<char>) -> ArtistView {
    ArtistView { id: 0, name, cover: Seq::empty(), description: Seq::empty() }
}

/// The album row of a decoded file, with no id yet.
pub open spec fn new_album(d: DecodedView) -> AlbumView {
    AlbumView {
        id: 0,
        name: d.album,
        description: Seq::empty(),
        year: d.year,
        artist: Seq::empty(),
    }
}

/// The link between the song of a decoded file and its album.
pub open spec fn new_album_song(d: DecodedView, song_id: Seq<char>, album_id: int) -> AlbumSongView {
    AlbumSongView {
        album_id,
        song_id,
        album_name: d.album,
        song_title: d.title,
        album_artist: primary_artist(d.artist),
    }
}

/// The song row of a decoded file under the id `id`. Where the file lies is
/// not known to the decoder and is left empty, and so are bit rate and sample
/// rate.
pub open spec fn new_song(d: DecodedView, id: Seq<char>) -> MetadataView {
    MetadataView {
        id,
        file_name: Seq::empty(),
        file_path: Seq::empty(),
        file_url: Seq::empty(),
        title: d.title,
        artist: d.artist,
        album: d.album,
        year: d.year,
        duration_ms: d.duration_ms,
        bitrate: Seq::empty(),
        samplerate: Seq::empty(),
        language: d.language,
        genre: d.genre,
        track: d.track,
        disc: d.disc,
        comment: d.comment,
    }
}

/// The row of a parsed lyric line of the song `song_id`.
pub open spec fn new_lyric(line: LyricLineView, song_id: Seq<char>) -> LyricView {
    LyricView { id: 0, song_id, time_ms: line.time_ms, text: line.text, language: Seq::empty() }
}

/// The standard base64 text of `bytes`, with padding: what
/// `base64::engine::general_purpose::STANDARD` encodes them to.
pub uninterp spec fn base64_text(bytes: Seq<u8>) -> Seq<char>;

/// Tells whether the base64 text of that many bytes has a length that fits
/// the machine.
pub open spec fn payload_fits(len: nat) -> bool {
    4 * (len / 3 + 1) <= usize::MAX
}

/// The row of an image, kept for `link_id` under the kind `kind`.
pub open spec fn new_cover(image: ImageView, link_id: int, kind: Seq<char>) -> CoverView {
    CoverView {
        kind,
        link_id,
        format: image.format,
        size: image.size,
        length: image.length,
        width: image.width,
        height: image.height,
        base64: base64_text(image.bytes),
    }
}

/// Tells whether a directory name does not occur in the text of the root.
pub open spec fn outside_root(music_dir: Seq<char>) -> spec_fn(Seq<char>) -> bool {
    |name: Seq<char>| !contains_sub(music_dir, name)
}

/// The genre tags that the place of a file adds: the names of the
/// directories above it that do not occur in the text of the music root.
pub open spec fn folder_genres(file_path: Seq<char>, music_dir: Seq<char>) -> Seq<Seq<char>> {
    parent_directory_names(file_path).filter(outside_root(music_dir))
}

/// The genre of a file: what its tags declare, then the folder tags, joined
/// by commas; the folder tags alone where the tags declare nothing.
pub open spec fn augmented_genre(
    genre: Seq<char>,
    file_path: Seq<char>,
    music_dir: Seq<char>,
) -> Seq<char> {
    let folders = join(folder_genres(file_path, music_dir), seq![',']);
    if trim(genre).len() == 0 {
        folders
    } else {
        trim(genre) + seq![','] + folders
    }
}

/// Encodes bytes as standard base64 with padding. Wraps `Engine::encode` of
/// `base64::engine::general_purpose::STANDARD`, which panics only where the
/// length of the text would not fit a `usize`.
#[verifier::external_body]
fn encode_base64(bytes: &Vec<u8>) -> (r: String)
    requires
        payload_fits(bytes@.len()),
    ensures
        r@ == base64_text(bytes@),
{
    base64::Engine::encode(&base64::engine::general_purpose::STANDARD, bytes)
}

/// The pieces of `original` between occurrences of `pat`, trimmed, without
/// the empty ones.
pub fn split_original(original: &str, pat: &str) -> (r: Vec<String>)
    ensures
        view_all(r@) == words(split(original@, pat@)),
{
    let text = to_chars(original);
    let cut = to_chars(pat);
    let pieces = split_chars(&text, &cut);
    let mut out: Vec<Vec<char>> = Vec::new();
    let mut i: usize = 0;
    assert(views(pieces@).take(0) == Seq::<Seq<char>>::empty());
    while i < pieces.len()
        invariant
            i <= pieces.len(),
            views(out@) == words(views(pieces@).take(i as int)),
        decreases pieces.len() - i,
    {
        let word = trim_chars(&pieces[i]);
        proof {
            let next = views(pieces@).take(i + 1);
            assert(next.drop_last() == views(pieces@).take(i as int));
            assert(next.last() == pieces@[i as int]@);
        }
        if word.len() > 0 {
            let ghost before = views(out@);
            out.push(word);
            assert(views(out@) == before.push(word@));
        }
        i = i + 1;
    }
    assert(views(pieces@).take(pieces.len() as int) == views(pieces@));
    let r = strings_of(&out);
    assert(view_all(r@) == views(out@));
    r
}

/// The names in a raw artist text.
pub fn split_artist(artist: &str) -> (r: Vec<String>)
    ensures
        view_all(r@) == artist_names(artist@),
{
    proof {
        reveal_strlit("/");
        assert("/"@ == seq!['/']);
    }
    split_original(artist, "/")
}

impl Metadata {
    /// The names in the artist text of this song.
    pub fn split_artist(&self) -> (r: Vec<String>)
        ensures
            view_all(r@) == artist_names(self.artist@),
    {
        split_artist(self.artist.as_str())
    }

    /// The tags in the genre text of this song.
    pub fn split_genre(&self) -> (r: Vec<String>)
        ensures
            view_all(r@) == genre_names(self.genre@),
    {
        proof {
            reveal_strlit(",");
            assert(","@ == seq![',']);
        }
        split_original(self.genre.as_str(), ",")
    }
}

impl MyMetadata {
    /// The rows of the parsed lyric lines, for the song `song_id`.
    pub fn build_lyrics(&self, song_id: &str) -> (r: Vec<Lyric>)
        ensures
            view_all(r@) == Seq::new(
                self@.lyrics.len(),
                |i: int| new_lyric(self@.lyrics[i], song_id@),
            ),
    {
        let mut out: Vec<Lyric> = Vec::new();
        let mut i: usize = 0;
        while i < self.lyrics.len()
            invariant
                i <= self.lyrics.len(),
                out@.len() == i,
                forall|j: int|
                    0 <= j < i ==> (#[trigger] out@[j])@ == new_lyric(self.lyrics@[j]@, song_id@),
            decreases self.lyrics.len() - i,
        {
            let line = &self.lyrics[i];
            out.push(
                Lyric {
                    id: 0,
                    song_id: song_id.to_owned(),
                    time_ms: line.time_ms,
                    text: line.text.clone(),
                    language: String::new(),
                },
            );
            i = i + 1;
        }
        assert(view_all(out@) == Seq::new(
            self@.lyrics.len(),
            |i: int| new_lyric(self@.lyrics[i], song_id@),
        ));
        out
    }

    /// The song row of this file under the id `id`.
    pub fn song_from(&self, id: String) -> (r: Metadata)
        ensures
            r@ == new_song(self@, id@),
    {
        Metadata {
            id,
            file_name: String::new(),
            file_path: String::new(),
            file_url: String::new(),
            title: self.title.clone(),
            artist: self.artist.clone(),
            album: self.album.clone(),
            year: self.year.clone(),
            duration_ms: self.duration_ms,
            bitrate: String::new(),
            samplerate: String::new(),
            language: self.language.clone(),
            genre: self.genre.clone(),
            track: self.track.clone(),
            disc: self.disc.clone(),
            comment: self.comment.clone(),
        }
    }

    /// The song row of this file under a fresh random id of nine letters and
    /// digits.
    pub fn build_metadata(&self) -> (r: Metadata)
        ensures
            r@ == new_song(self@, r@.id),
            r@.id.len() == 9,
            forall|i: int| 0 <= i < 9 ==> is_alphanumeric(#[trigger] r@.id[i]),
    {
        let id = generate_random_string(9);
        self.song_from(id)
    }

    /// The rows of the images of this file, kept for `link_id` under the kind
    /// `kind`, with the bytes of each encoded as base64.
    pub fn build_covers(&self, link_id: i64, kind: &str) -> (r: Vec<Cover>)
        requires
            forall|i: int|
                0 <= i < self@.covers.len() ==> payload_fits((#[trigger] self@.covers[i]).bytes.len()),
        ensures
            view_all(r@) == Seq::new(
                self@.covers.len(),
                |i: int| new_cover(self@.covers[i], link_id as int, kind@),
            ),
    {
        let mut out: Vec<Cover> = Vec::new();
        let mut i: usize = 0;
        while i < self.covers.len()
            invariant
                i <= self.covers.len(),
                out@.len() == i,
                forall|j: int|
                    0 <= j < self@.covers.len() ==> payload_fits(
                        (#[trigger] self@.covers[j]).bytes.len(),
                    ),
                forall|j: int|
                    0 <= j < i ==> (#[trigger] out@[j])@ == new_cover(
                        self.covers@[j]@,
                        link_id as int,
                        kind@,
                    ),
            decreases self.covers.len() - i,
        {
            let image = &self.covers[i];
            assert(self@.covers[i as int] == image@);
            out.push(
                Cover {
                    kind: kind.to_owned(),
                    link_id,
                    format: image.format.clone(),
                    size: image.size.clone(),
                    length: image.length,
                    width: image.width,
                    height: image.height,
                    base64: encode_base64(&image.base64),
                },
            );
            i = i + 1;
        }
        assert(view_all(out@) == Seq::new(
            self@.covers.len(),
            |i: int| new_cover(self@.covers[i], link_id as int, kind@),
        ));
        out
    }

    /// The artists of this song, none with an id yet: one for each name in
    /// the artist text or, where it holds none, one named by the whole text.
    pub fn build_artist(&self) -> (r: Vec<Artist>)
        ensures
            view_all(r@) == Seq::new(
                song_artists(self@.artist).len(),
                |i: int| new_artist(song_artists(self@.artist)[i]),
            ),
    {
        let mut names = self.split_artist();
        if names.len() == 0 {
            names.push(self.artist.clone());
            assert(view_all(names@) == seq![self@.artist]);
        }
        assert(view_all(names@) == song_artists(self@.artist));
        let mut out: Vec<Artist> = Vec::new();
        let mut i: usize = 0;
        while i < names.len()
            invariant
                i <= names.len(),
                out@.len() == i,
                forall|j: int| 0 <= j < i ==> (#[trigger] out@[j])@ == new_artist(names@[j]@),
            decreases names.len() - i,
        {
            out.push(
                Artist {
                    id: 0,
                    name: names[i].clone(),
                    cover: String::new(),
                    description: String::new(),
                },
            );
            i = i + 1;
        }
        assert forall|j: int| 0 <= j < names@.len() implies names@[j]@ == song_artists(
            self@.artist,
        )[j] by {
            assert(view_all(names@)[j] == names@[j]@);
        }
        assert(view_all(out@) == Seq::new(
            song_artists(self@.artist).len(),
            |i: int| new_artist(song_artists(self@.artist)[i]),
        ));
        out
    }

    /// The links between the song `song_id` and each of the artists.
    pub fn build_artist_songs(&self, song_id: &str, artist_id: &Vec<i64>) -> (r: Vec<ArtistSong>)
        ensures
            view_all(r@) == Seq::new(
                artist_id@.len(),
                |i: int| ArtistSongView { artist_id: artist_id@[i] as int, song_id: song_id@ },
            ),
    {
        let mut out: Vec<ArtistSong> = Vec::new();
        let mut i: usize = 0;
        while i < artist_id.len()
            invariant
                i <= artist_id.len(),
                out@.len() == i,
                forall|j: int|
                    0 <= j < i ==> (#[trigger] out@[j])@ == (ArtistSongView {
                        artist_id: artist_id@[j] as int,
                        song_id: song_id@,
                    }),
            decreases artist_id.len() - i,
        {
            out.push(ArtistSong { artist_id: artist_id[i], song_id: song_id.to_owned() });
            i = i + 1;
        }
        assert(view_all(out@) == Seq::new(
            artist_id@.len(),
            |i: int| ArtistSongView { artist_id: artist_id@[i] as int, song_id: song_id@ },
        ));
        out
    }

    /// The album of this song, with no id yet.
    pub fn build_album(&self) -> (r: Album)
        ensures
            r@ == new_album(self@),
    {
        Album {
            id: 0,
            name: self.album.clone(),
            description: String::new(),
            year: self.year.clone(),
            artist: String::new(),
        }
    }

    /// The link between the song `song_id` and the album `album_id`. The
    /// first artist of the song stands as the artist of the album.
    pub fn build_album_song(&self, song_id: &str, album_id: i64) -> (r: AlbumSong)
        ensures
            r@ == new_album_song(self@, song_id@, album_id as int),
    {
        let artists = self.split_artist();
        let album_artist = if artists.len() > 0 {
            assert(view_all(artists@)[0] == artists@[0]@);
            artists[0].clone()
        } else {
            self.artist.clone()
        };
        AlbumSong {
            album_id,
            song_id: song_id.to_owned(),
            album_name: self.album.clone(),
            song_title: self.title.clone(),
            album_artist,
        }
    }

    /// The names in the artist text of this file.
    pub fn split_artist(&self) -> (r: Vec<String>)
        ensures
            view_all(r@) == artist_names(self@.artist),
    {
        split_artist(self.artist.as_str())
    }

    /// Adds to the genre the names of the directories that hold the file and
    /// do not occur in the text of the music root. Nothing else changes.
    pub fn build_genre(&mut self, file_path: &str, music_dir: &str)
        ensures
            final(self)@ == (DecodedView {
                genre: augmented_genre(old(self)@.genre, file_path@, music_dir@),
                ..old(self)@
            }),
    {
        let path = to_chars(file_path);
        let root = to_chars(music_dir);
        let parents = parent_directory_chars(&path);
        let ghost keep = outside_root(music_dir@);
        let mut folders: Vec<Vec<char>> = Vec::new();
        let mut i: usize = 0;
        assert(views(parents@).take(0).filter(keep) == Seq::<Seq<char>>::empty()) by {
            reveal(Seq::filter);
        }
        while i < parents.len()
            invariant
                i <= parents.len(),
                root@ == music_dir@,
                keep == outside_root(music_dir@),
                views(folders@) == views(parents@).take(i as int).filter(keep),
            decreases parents.len() - i,
        {
            let name = &parents[i];
            proof {
                let before = views(parents@).take(i as int);
                assert(views(parents@).take(i + 1) == before.push(name@));
                before.lemma_filter_push(name@, keep);
            }
            if !contains_chars(&root, name) {
                let ghost before = views(folders@);
                let mut copy: Vec<char> = Vec::new();
                append_chars(&mut copy, name);
                folders.push(copy);
                assert(views(folders@) == before.push(name@));
            }
            i = i + 1;
        }
        assert(views(parents@).take(parents.len() as int) == views(parents@));
        let mut comma: Vec<char> = Vec::new();
        comma.push(',');
        assert(comma@ == seq![',']);
        let joined = join_chars(&folders, &comma);
        let declared = trim_chars(&to_chars(self.genre.as_str()));
        if declared.len() == 0 {
            self.genre = from_chars(&joined);
        } else {
            let mut text = declared;
            append_chars(&mut text, &comma);
            append_chars(&mut text, &joined);
            self.genre = from_chars(&text);
        }
    }
}

} // verus!
