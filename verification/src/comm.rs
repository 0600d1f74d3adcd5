//! Paths, file names and fresh identifiers.
//!
//! A path is read as text cut by `/`. Its components are the pieces that are
//! neither empty nor `.`, so repeated and trailing separators do not count.

use crate::database::service::view_all;
use crate::text::{
    chars_eq, fold, fold_chars, from_chars, slice_chars, split, split_chars, strings_of, to_chars,
    views,
};
use vstd::prelude::*;

verus! {

/// Tells whether a piece between two separators is a component of the path.
pub open spec fn is_component(piece: Seq<char>) -> bool {
    piece.len() > 0 && piece != seq!['.']
}

/// Tells whether a component names a directory or a file, and not the parent.
pub open spec fn is_plain_name(piece: Seq<char>) -> bool {
    piece != seq!['.', '.']
}

/// The components of a path, in order.
pub open spec fn components(path: Seq<char>) -> Seq<Seq<char>> {
    split(path, seq!['/']).filter(|piece: Seq<char>| is_component(piece))
}

/// The names of the directories above the last component of a path, from the
/// outermost to the innermost.
pub open spec fn parent_directory_names(path: Seq<char>) -> Seq<Seq<char>> {
    let all = components(path);
    if all.len() == 0 {
        Seq::empty()
    } else {
        all.drop_last().filter(|piece: Seq<char>| is_plain_name(piece))
    }
}

/// The last component of a path, where that is a name.
pub open spec fn file_name(path: Seq<char>) -> Option<Seq<char>> {
    let all = components(path);
    if all.len() > 0 && is_plain_name(all.last()) {
        Some(all.last())
    } else {
        None
    }
}

/// The index of the last `.` in `name`, or -1.
pub open spec fn last_dot(name: Seq<char>) -> int
    decreases name.len(),
{
    if name.len() == 0 {
        -1
    } else if name.last() == '.' {
        name.len() - 1
    } else {
        last_dot(name.drop_last())
    }
}

/// What follows the last `.` of the file name, where a `.` stands inside it
/// and not only at its start.
pub open spec fn extension(path: Seq<char>) -> Option<Seq<char>> {
    match file_name(path) {
        Some(name) => if last_dot(name) <= 0 {
            None
        } else {
            Some(name.skip(last_dot(name) + 1))
        },
        None => None,
    }
}

/// Tells whether the extension of a path is `mp3` or `flac`, in any case of
/// letters.
pub open spec fn is_music_path(path: Seq<char>) -> bool {
    match extension(path) {
        Some(ext) => fold(ext) == seq!['m', 'p', '3'] || fold(ext) == seq!['f', 'l', 'a', 'c'],
        None => false,
    }
}

/// The components of a path, in order.
pub fn path_components(path: &Vec<char>) -> (r: Vec<Vec<char>>)
    ensures
        views(r@) == components(path@),
{
    let mut sep: Vec<char> = Vec::new();
    sep.push('/');
    assert(sep@ == seq!['/']);
    let pieces = split_chars(path, &sep);
    let ghost keep = |piece: Seq<char>| is_component(piece);
    let mut out: Vec<Vec<char>> = Vec::new();
    let mut i: usize = 0;
    assert(views(pieces@).take(0).filter(keep) == Seq::<Seq<char>>::empty()) by {
        reveal(Seq::filter);
    }
    while i < pieces.len()
        invariant
            i <= pieces.len(),
            keep == |piece: Seq<char>| is_component(piece),
            views(out@) == views(pieces@).take(i as int).filter(keep),
        decreases pieces.len() - i,
    {
        let piece = &pieces[i];
        proof {
            let before = views(pieces@).take(i as int);
            assert(views(pieces@).take(i + 1) == before.push(piece@));
            before.lemma_filter_push(piece@, keep);
        }
        let dot: Vec<char> = vec!['.'];
        assert(dot@ == seq!['.']);
        let is_dot = chars_eq(piece, &dot);
        if piece.len() > 0 && !is_dot {
            let ghost before = views(out@);
            out.push(slice_chars(piece, 0, piece.len()));
            assert(piece@.subrange(0, piece@.len() as int) == piece@);
            assert(views(out@) == before.push(piece@));
        }
        i = i + 1;
    }
    assert(views(pieces@).take(pieces.len() as int) == views(pieces@));
    out
}

/// Tells whether `piece` is the two dots that name the parent directory.
fn is_dot_dot(piece: &Vec<char>) -> (r: bool)
    ensures
        r == !is_plain_name(piece@),
{
    let dots: Vec<char> = vec!['.', '.'];
    assert(dots@ == seq!['.', '.']);
    chars_eq(piece, &dots)
}

/// The names of the directories above the last component of `path`, from the
/// outermost to the innermost.
pub fn parent_directory_chars(path: &Vec<char>) -> (r: Vec<Vec<char>>)
    ensures
        views(r@) == parent_directory_names(path@),
{
    let all = path_components(path);
    let mut out: Vec<Vec<char>> = Vec::new();
    if all.len() == 0 {
        assert(views(out@) == Seq::<Seq<char>>::empty());
        return out;
    }
    let ghost keep = |piece: Seq<char>| is_plain_name(piece);
    let ghost above = views(all@).drop_last();
    let n = all.len() - 1;
    let mut i: usize = 0;
    assert(above.take(0).filter(keep) == Seq::<Seq<char>>::empty()) by {
        reveal(Seq::filter);
    }
    while i < n
        invariant
            i <= n,
            n + 1 == all.len(),
            above == views(all@).drop_last(),
            keep == |piece: Seq<char>| is_plain_name(piece),
            views(out@) == above.take(i as int).filter(keep),
        decreases n - i,
    {
        let piece = &all[i];
        proof {
            let before = above.take(i as int);
            assert(above.take(i + 1) == before.push(piece@));
            before.lemma_filter_push(piece@, keep);
        }
        if !is_dot_dot(piece) {
            let ghost before = views(out@);
            out.push(slice_chars(piece, 0, piece.len()));
            assert(piece@.subrange(0, piece@.len() as int) == piece@);
            assert(views(out@) == before.push(piece@));
        }
        i = i + 1;
    }
    assert(above.take(n as int) == above);
    out
}

/// The names of the directories that hold the file at `file_path`, from the
/// outermost to the innermost.
pub fn get_parent_directory_names(file_path: &str) -> (r: Vec<String>)
    ensures
        view_all(r@) == parent_directory_names(file_path@),
{
    let path = to_chars(file_path);
    let names = parent_directory_chars(&path);
    strings_of(&names)
}

/// The last component of `path`, where that is a name.
pub fn file_name_chars(path: &Vec<char>) -> (r: Option<Vec<char>>)
    ensures
        match r {
            Some(name) => file_name(path@) == Some(name@),
            None => file_name(path@) is None,
        },
{
    let all = path_components(path);
    if all.len() == 0 {
        return None;
    }
    let name = &all[all.len() - 1];
    assert(name@ == views(all@).last());
    if is_dot_dot(name) {
        return None;
    }
    let copy = slice_chars(name, 0, name.len());
    assert(name@.subrange(0, name@.len() as int) == name@);
    Some(copy)
}

/// The index of the last `.` in `name`.
fn find_last_dot(name: &Vec<char>) -> (r: Option<usize>)
    ensures
        match r {
            Some(i) => i < name.len() && i as int == last_dot(name@),
            None => last_dot(name@) == -1,
        },
{
    let mut i: usize = name.len();
    assert(name@.take(i as int) == name@);
    while i > 0
        invariant
            i <= name.len(),
            last_dot(name@) == last_dot(name@.take(i as int)),
        decreases i,
    {
        if name[i - 1] == '.' {
            return Some(i - 1);
        }
        assert(name@.take(i as int).drop_last() == name@.take(i - 1));
        i = i - 1;
    }
    None
}

/// Tells whether the characters are exactly those of `mp3` or `flac`.
fn is_music_extension(ext: &Vec<char>) -> (r: bool)
    ensures
        r == (ext@ == seq!['m', 'p', '3'] || ext@ == seq!['f', 'l', 'a', 'c']),
{
    let mp3: Vec<char> = vec!['m', 'p', '3'];
    let flac: Vec<char> = vec!['f', 'l', 'a', 'c'];
    assert(mp3@ == seq!['m', 'p', '3']);
    assert(flac@ == seq!['f', 'l', 'a', 'c']);
    chars_eq(ext, &mp3) || chars_eq(ext, &flac)
}

/// Tells whether the file at `file_path` is an audio file that the library
/// reads: one whose extension is `mp3` or `flac`, in any case of letters.
pub fn is_music_file(file_path: &str) -> (r: bool)
    ensures
        r == is_music_path(file_path@),
{
    let path = to_chars(file_path);
    let all = path_components(&path);
    if all.len() == 0 {
        return false;
    }
    let name = &all[all.len() - 1];
    assert(name@ == views(all@).last());
    if is_dot_dot(name) {
        return false;
    }
    match find_last_dot(name) {
        Some(i) => {
            if i == 0 {
                return false;
            }
            let ext = slice_chars(name, i + 1, name.len());
            let lower = fold_chars(&ext);
            is_music_extension(&lower)
        },
        None => false,
    }
}

/// The letter or digit at place `i` of the alphabet `A..Z a..z 0..9`.
pub open spec fn alphabet_at(i: int) -> char {
    if 0 <= i < 26 {
        ((0x41 + i) as u8) as char
    } else if 26 <= i < 52 {
        ((0x61 + i - 26) as u8) as char
    } else {
        ((0x30 + i - 52) as u8) as char
    }
}

/// Tells whether `c` is an ASCII letter or digit.
pub open spec fn is_alphanumeric(c: char) -> bool {
    exists|i: int| 0 <= i < 62 && c == alphabet_at(i)
}

/// A number below `bound`, drawn from the random generator of the thread.
/// Wraps `rand::Rng::gen_range` on `0..bound` with `rand::thread_rng`, which
/// returns a value of that range and panics on an empty one.
#[verifier::external_body]
fn random_below(bound: usize) -> (r: usize)
    requires
        bound > 0,
    ensures
        r < bound,
{
    rand::Rng::gen_range(&mut rand::thread_rng(), 0..bound)
}

/// The executable form of [`alphabet_at`].
fn alphabet_char(i: usize) -> (c: char)
    requires
        i < 62,
    ensures
        c == alphabet_at(i as int),
{
    if i < 26 {
        let b: u8 = (0x41 + i) as u8;
        b as char
    } else if i < 52 {
        let b: u8 = (0x61 + i - 26) as u8;
        b as char
    } else {
        let b: u8 = (0x30 + i - 52) as u8;
        b as char
    }
}

/// A text of `length` characters drawn from `alphabet`, each place filled by
/// the draw at that place.
pub fn random_text(length: usize) -> (r: Vec<char>)
    ensures
        r@.len() == length,
        forall|i: int| 0 <= i < r@.len() ==> is_alphanumeric(#[trigger] r@[i]),
{
    let mut out: Vec<char> = Vec::new();
    let mut n: usize = 0;
    while n < length
        invariant
            n <= length,
            out@.len() == n,
            forall|i: int| 0 <= i < out@.len() ==> is_alphanumeric(#[trigger] out@[i]),
        decreases length - n,
    {
        let idx = random_below(62);
        out.push(alphabet_char(idx));
        n = n + 1;
    }
    out
}

/// A random identifier of `length` ASCII letters and digits.
pub fn generate_random_string(length: usize) -> (r: String)
    ensures
        r@.len() == length,
        forall|i: int| 0 <= i < r@.len() ==> is_alphanumeric(#[trigger] r@[i]),
{
    let chars = random_text(length);
    from_chars(&chars)
}

} // verus!
