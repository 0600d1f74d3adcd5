use lib_utils::lyric::{lines_of, parse_line, proc_lyrics};
use lib_utils::text::to_chars;
use lib_utils::readmeta::Lyric;

fn line(time_ms: u64, text: &str) -> Lyric {
    Lyric { time_ms, text: text.to_string() }
}

#[test]
fn a_timed_line_gives_its_time_and_text() {
    assert_eq!(parse_line("[00:12.50]hello"), line(12500, "hello"));
    assert_eq!(parse_line("[01:02.03]  spaced text "), line(62030, "spaced text "));
    assert_eq!(parse_line("[99:99.99]"), line(6039990, ""));
    assert_eq!(parse_line("[00:12.50]这是一句歌词"), line(12500, "这是一句歌词"));
}

#[test]
fn a_line_without_a_time_stamp_is_kept_whole_at_time_zero() {
    assert_eq!(parse_line("not a lyric line"), line(0, "not a lyric line"));
    assert_eq!(parse_line("[ar:Someone]"), line(0, "[ar:Someone]"));
    assert_eq!(parse_line("[0:12.50]x"), line(0, "[0:12.50]x"));
    assert_eq!(parse_line("[00:12.5]x"), line(0, "[00:12.5]x"));
    assert_eq!(parse_line(" [00:12.50]x"), line(0, " [00:12.50]x"));
    assert_eq!(parse_line("[00:12.50]a\nb"), line(0, "[00:12.50]a\nb"));
    assert_eq!(parse_line(""), line(0, ""));
}

#[test]
fn blank_lines_are_dropped() {
    assert_eq!(proc_lyrics("   "), vec![]);
    assert_eq!(proc_lyrics(""), vec![]);
    assert_eq!(proc_lyrics("\n\n \t\n"), vec![]);
}

#[test]
fn lines_keep_the_order_of_the_text() {
    let text = "[00:12.50]first\r\n\n[00:15.00]second\nplain\n[00:10.00]zeroth\n";
    assert_eq!(
        proc_lyrics(text),
        vec![
            line(12500, "first"),
            line(15000, "second"),
            line(0, "plain"),
            line(10000, "zeroth"),
        ]
    );
}

#[test]
fn a_carriage_return_belongs_to_the_line_ending_only() {
    assert_eq!(proc_lyrics("a\rb\r\nc\r"), vec![line(0, "a\rb"), line(0, "c\r")]);
}

#[test]
fn lines_are_cut_as_the_standard_library_cuts_them() {
    for text in [
        "",
        "\n",
        "a",
        "a\n",
        "a\nb",
        "a\r\nb\r\n",
        "a\rb\r\nc\r",
        "\r\n\r\n",
        "\n\na\n\n",
        "a\r\r\nb",
        "\r",
        "x\n\r",
    ] {
        let expected: Vec<String> = text.lines().map(|line| line.to_string()).collect();
        let lines: Vec<String> = lines_of(&to_chars(text)).iter().map(|l| l.iter().collect()).collect();
        assert_eq!(lines, expected, "{:?}", text);
    }
}
