//! Lyrics in the LRC form: lines that start with a time stamp `[MM:SS.HH]`.

use crate::database::service::view_all;
use crate::readmeta::{Lyric, LyricLineView};
use crate::text::{
    from_chars, is_blank, lemma_split_not_empty, lemma_trim_empty_iff_blank, slice_chars, split,
    split_chars, to_chars, trim_chars, trim_start, trim_start_chars, views,
};
use vstd::prelude::*;

verus! {

/// Tells whether `c` is one of the digits `0` to `9`.
pub open spec fn is_digit(c: char) -> bool {
    0x30 <= c as u32 <= 0x39
}

/// The number that the two digits at `i` and `i + 1` write.
pub open spec fn two_digits(line: Seq<char>, i: int) -> nat {
    ((line[i] as u32 - 0x30) * 10 + (line[i + 1] as u32 - 0x30)) as nat
}

/// Tells whether `line` starts with a time stamp: `[`, two digits, `:`, two
/// digits, `.`, two digits, `]`.
pub open spec fn has_time_stamp(line: Seq<char>) -> bool {
    &&& line.len() >= 10
    &&& line[0] == '['
    &&& is_digit(line[1])
    &&& is_digit(line[2])
    &&& line[3] == ':'
    &&& is_digit(line[4])
    &&& is_digit(line[5])
    &&& line[6] == '.'
    &&& is_digit(line[7])
    &&& is_digit(line[8])
    &&& line[9] == ']'
}

/// What follows the time stamp, without the white space before it.
pub open spec fn timed_text(line: Seq<char>) -> Seq<char> {
    trim_start(line.skip(10))
}

/// Tells whether `line` is a timed line: a time stamp, then text that does
/// not run over a line feed.
pub open spec fn is_timed(line: Seq<char>) -> bool {
    has_time_stamp(line) && !timed_text(line).contains('\n')
}

/// The time of a timed line in milliseconds: minutes, seconds and hundredths
/// of a second, summed.
pub open spec fn time_of(line: Seq<char>) -> nat {
    (two_digits(line, 1) * 60 + two_digits(line, 4)) * 1000 + two_digits(line, 7) * 10
}

/// What a line of lyrics says: its time and text where it is timed, else the
/// whole line at time zero.
pub open spec fn parsed_line(line: Seq<char>) -> LyricLineView {
    if is_timed(line) {
        LyricLineView { time_ms: time_of(line), text: timed_text(line) }
    } else {
        LyricLineView { time_ms: 0, text: line }
    }
}

/// `s` without one carriage return at its end.
pub open spec fn strip_cr(s: Seq<char>) -> Seq<char> {
    if s.len() > 0 && s.last() == '\r' {
        s.drop_last()
    } else {
        s
    }
}

/// The lines of a text. A line ends at a line feed; a carriage return just
/// before the line feed belongs to the ending. After the last ending nothing
/// more counts as a line unless characters follow.
pub open spec fn lines(text: Seq<char>) -> Seq<Seq<char>> {
    let pieces = split(text, seq!['\n']);
    let ended = Seq::new((pieces.len() - 1) as nat, |i: int| strip_cr(pieces[i]));
    if pieces.last().len() == 0 {
        ended
    } else {
        ended.push(pieces.last())
    }
}

/// The lyric lines of a text: each line that is not blank, parsed, in the
/// order of the text.
pub open spec fn parsed_lyrics(text: Seq<char>) -> Seq<LyricLineView> {
    lines(text).filter(|line: Seq<char>| !is_blank(line)).map_values(
        |line: Seq<char>| parsed_line(line),
    )
}

/// Tells whether `c` is one of the digits `0` to `9`.
fn char_is_digit(c: char) -> (r: bool)
    ensures
        r == is_digit(c),
{
    let n: u32 = c as u32;
    0x30 <= n && n <= 0x39
}

/// The number that two digits write.
fn read_two_digits(line: &Vec<char>, i: usize) -> (r: u64)
    requires
        i + 1 < line.len(),
        is_digit(line@[i as int]),
        is_digit(line@[i + 1]),
    ensures
        r == two_digits(line@, i as int),
        r <= 99,
{
    let a: u32 = line[i] as u32 - 0x30;
    let b: u32 = line[i + 1] as u32 - 0x30;
    (a * 10 + b) as u64
}

/// Tells whether `line` starts with a time stamp.
fn starts_with_time_stamp(line: &Vec<char>) -> (r: bool)
    ensures
        r == has_time_stamp(line@),
{
    line.len() >= 10 && line[0] == '[' && char_is_digit(line[1]) && char_is_digit(line[2])
        && line[3] == ':' && char_is_digit(line[4]) && char_is_digit(line[5]) && line[6] == '.'
        && char_is_digit(line[7]) && char_is_digit(line[8]) && line[9] == ']'
}

/// Tells whether a line feed stands in `text`.
fn has_line_feed(text: &Vec<char>) -> (r: bool)
    ensures
        r == text@.contains('\n'),
{
    let mut i: usize = 0;
    while i < text.len()
        invariant
            i <= text.len(),
            forall|j: int| 0 <= j < i ==> text@[j] != '\n',
        decreases text.len() - i,
    {
        if text[i] == '\n' {
            return true;
        }
        i = i + 1;
    }
    false
}

/// Parses one line of lyrics that is given by its characters.
pub fn parse_chars(line: &Vec<char>) -> (r: Lyric)
    ensures
        r@ == parsed_line(line@),
{
    if starts_with_time_stamp(line) {
        let rest = slice_chars(line, 10, line.len());
        assert(rest@ == line@.skip(10));
        let text = trim_start_chars(&rest);
        if !has_line_feed(&text) {
            let minutes = read_two_digits(line, 1);
            let seconds = read_two_digits(line, 4);
            let hundredths = read_two_digits(line, 7);
            return Lyric {
                time_ms: (minutes * 60 + seconds) * 1000 + hundredths * 10,
                text: from_chars(&text),
            };
        }
    }
    Lyric { time_ms: 0, text: from_chars(line) }
}

/// Parses one line of lyrics. A line `[MM:SS.HH]text` gives the time
/// `MM * 60 + SS + HH / 100` seconds, in milliseconds, and `text` without the
/// white space before it. Any other line is kept whole, at time zero.
pub fn parse_line(line: &str) -> (r: Lyric)
    ensures
        r@ == parsed_line(line@),
{
    let chars = to_chars(line);
    parse_chars(&chars)
}

/// The lines of a text, by their characters.
pub fn lines_of(text: &Vec<char>) -> (r: Vec<Vec<char>>)
    ensures
        views(r@) == lines(text@),
{
    let mut feed: Vec<char> = Vec::new();
    feed.push('\n');
    assert(feed@ == seq!['\n']);
    let pieces = split_chars(text, &feed);
    proof {
        lemma_split_not_empty(text@, feed@);
    }
    let ghost all = views(pieces@);
    let n = pieces.len() - 1;
    let mut out: Vec<Vec<char>> = Vec::new();
    let mut i: usize = 0;
    while i < n
        invariant
            i <= n,
            n + 1 == pieces.len(),
            all == views(pieces@),
            views(out@) == Seq::new(i as nat, |j: int| strip_cr(all[j])),
        decreases n - i,
    {
        let piece = &pieces[i];
        let end = if piece.len() > 0 && piece[piece.len() - 1] == '\r' {
            piece.len() - 1
        } else {
            piece.len()
        };
        let line = slice_chars(piece, 0, end);
        assert(line@ == strip_cr(all[i as int]));
        let ghost before = views(out@);
        out.push(line);
        assert(views(out@) == before.push(line@));
        i = i + 1;
    }
    let last = &pieces[n];
    if last.len() > 0 {
        let ghost before = views(out@);
        out.push(slice_chars(last, 0, last.len()));
        assert(last@.subrange(0, last@.len() as int) == last@);
        assert(views(out@) == before.push(last@));
    }
    out
}

/// Parses a text of lyrics: every line that is not blank becomes one lyric
/// line, in the order of the text.
pub fn proc_lyrics(lyrics: &str) -> (r: Vec<Lyric>)
    ensures
        view_all(r@) == parsed_lyrics(lyrics@),
{
    let text = to_chars(lyrics);
    let all = lines_of(&text);
    let ghost keep = |line: Seq<char>| !is_blank(line);
    let ghost parse = |line: Seq<char>| parsed_line(line);
    let mut out: Vec<Lyric> = Vec::new();
    let mut i: usize = 0;
    assert(views(all@).take(0).filter(keep) == Seq::<Seq<char>>::empty()) by {
        reveal(Seq::filter);
    }
    while i < all.len()
        invariant
            i <= all.len(),
            keep == |line: Seq<char>| !is_blank(line),
            parse == |line: Seq<char>| parsed_line(line),
            view_all(out@) == views(all@).take(i as int).filter(keep).map_values(parse),
        decreases all.len() - i,
    {
        let line = &all[i];
        proof {
            let before = views(all@).take(i as int);
            assert(views(all@).take(i + 1) == before.push(line@));
            before.lemma_filter_push(line@, keep);
            lemma_trim_empty_iff_blank(line@);
        }
        if trim_chars(line).len() > 0 {
            let ghost before = view_all(out@);
            let parsed = parse_chars(line);
            out.push(parsed);
            assert(view_all(out@) == before.push(parsed_line(line@)));
            assert(views(all@).take(i as int).filter(keep).push(line@).map_values(parse)
                == views(all@).take(i as int).filter(keep).map_values(parse).push(
                parsed_line(line@),
            ));
        }
        i = i + 1;
    }
    assert(views(all@).take(all.len() as int) == views(all@));
    out
}

} // verus!
