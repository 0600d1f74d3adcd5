use lib_utils::text::{
    chars_are, chars_eq, contains_chars, decimal_chars, find_chars, fold_chars, join_chars,
    replace_chars, slashed_chars, split_chars, strip_prefix_chars, to_chars, trim_chars,
    trim_end_chars, trim_start_chars,
};

fn text(chars: &Vec<char>) -> String {
    chars.iter().collect()
}

fn pieces(parts: &Vec<Vec<char>>) -> Vec<String> {
    parts.iter().map(text).collect()
}

#[test]
fn trimming_removes_white_space_at_both_ends_only() {
    assert_eq!(text(&trim_chars(&to_chars("  a b \t\n"))), "a b");
    assert_eq!(text(&trim_chars(&to_chars("\u{3000}x\u{a0}"))), "x");
    assert_eq!(text(&trim_chars(&to_chars(" \t "))), "");
    assert_eq!(text(&trim_chars(&to_chars(""))), "");
    assert_eq!(text(&trim_start_chars(&to_chars("  a "))), "a ");
    assert_eq!(text(&trim_end_chars(&to_chars("  a "))), "  a");
}

#[test]
fn trimming_agrees_with_the_standard_library() {
    for s in ["", " ", "a", " a", "a ", "\u{85}a\u{2028}", "\u{200b}a", "\u{1680}\u{205f}b c\u{202f}"] {
        assert_eq!(text(&trim_chars(&to_chars(s))), s.trim());
    }
}

#[test]
fn splitting_cuts_at_every_occurrence_from_the_left() {
    assert_eq!(pieces(&split_chars(&to_chars("a/b/c"), &to_chars("/"))), vec!["a", "b", "c"]);
    assert_eq!(pieces(&split_chars(&to_chars("/a/"), &to_chars("/"))), vec!["", "a", ""]);
    assert_eq!(pieces(&split_chars(&to_chars(""), &to_chars("/"))), vec![""]);
    assert_eq!(pieces(&split_chars(&to_chars("aaa"), &to_chars("aa"))), vec!["", "a"]);
    assert_eq!(pieces(&split_chars(&to_chars("abc"), &to_chars(""))), vec!["", "a", "b", "c", ""]);
}

#[test]
fn splitting_agrees_with_the_standard_library() {
    for (s, p) in [("a, b,,c", ","), ("xx--yy--", "--"), ("----", "--"), ("abc", "abcd"), ("", "")] {
        let expected: Vec<String> = s.split(p).map(|x| x.to_string()).collect();
        assert_eq!(pieces(&split_chars(&to_chars(s), &to_chars(p))), expected);
    }
}

#[test]
fn finding_gives_the_first_occurrence() {
    assert_eq!(find_chars(&to_chars("abcabc"), &to_chars("bc"), 0), Some(1));
    assert_eq!(find_chars(&to_chars("abcabc"), &to_chars("bc"), 2), Some(4));
    assert_eq!(find_chars(&to_chars("abcabc"), &to_chars("bc"), 5), None);
    assert_eq!(find_chars(&to_chars("abc"), &to_chars(""), 3), Some(3));
    assert_eq!(find_chars(&to_chars("abc"), &to_chars(""), 4), None);
    assert!(contains_chars(&to_chars("music_root"), &to_chars("root")));
    assert!(!contains_chars(&to_chars("music_root"), &to_chars("Rock")));
    assert!(contains_chars(&to_chars(""), &to_chars("")));
}

#[test]
fn joining_puts_the_separator_between_neighbours() {
    let parts = vec![to_chars("Rock"), to_chars("Queen")];
    assert_eq!(text(&join_chars(&parts, &to_chars(","))), "Rock,Queen");
    assert_eq!(text(&join_chars(&vec![to_chars("one")], &to_chars(","))), "one");
    assert_eq!(text(&join_chars(&vec![], &to_chars(","))), "");
}

#[test]
fn replacing_agrees_with_the_standard_library() {
    for (s, p, w) in [("image/png", "image/", ""), ("a\\b\\c", "\\", "/"), ("aaa", "aa", "b")] {
        assert_eq!(text(&replace_chars(&to_chars(s), &to_chars(p), &to_chars(w))), s.replace(p, w));
    }
}

#[test]
fn folding_lowers_ascii_letters_and_the_kelvin_sign() {
    assert_eq!(text(&fold_chars(&to_chars("FlAc-09_Z"))), "flac-09_z");
    assert_eq!(text(&fold_chars(&to_chars("\u{212a}"))), "k");
    assert_eq!(text(&fold_chars(&to_chars("É"))), "É");
}

#[test]
fn slashes_and_prefixes() {
    assert_eq!(text(&slashed_chars(&to_chars("C:\\music\\a.mp3"))), "C:/music/a.mp3");
    assert_eq!(text(&strip_prefix_chars(&to_chars("/music/a.mp3"), &to_chars("/music"))), "/a.mp3");
    assert_eq!(text(&strip_prefix_chars(&to_chars("/other/music/a"), &to_chars("/music"))), "/other/music/a");
}

#[test]
fn decimal_digits_and_comparisons() {
    assert_eq!(text(&decimal_chars(0)), "0");
    assert_eq!(text(&decimal_chars(44100)), "44100");
    assert_eq!(text(&decimal_chars(u64::MAX)), u64::MAX.to_string());
    assert!(chars_are(&to_chars("mp3"), "mp3"));
    assert!(!chars_are(&to_chars("mp3"), "mp4"));
    assert!(chars_eq(&to_chars(""), &to_chars("")));
    assert!(!chars_eq(&to_chars("a"), &to_chars("ab")));
}
