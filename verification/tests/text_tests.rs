use omarank::fields::{
    parse_u32, parse_u64, parse_usize, remove_all_chars, split_at_char, split_lines, split_words,
    trim_char_chars, trim_start_matches_chars,
};
use omarank::text::{
    chars_of, clean_string, clean_string_fits, contains_str, ends_with_str, find_chars,
    starts_with_str, trim_chars,
};

fn v(s: &str) -> Vec<char> {
    s.chars().collect()
}

fn strs(x: &[Vec<char>]) -> Vec<String> {
    x.iter().map(|c| c.iter().collect()).collect()
}

#[test]
fn clean_string_strips_markup_and_control_characters() {
    assert_eq!(clean_string("  <b>AMD & \"Ryzen\" 'X'</b>\t\n", 50), "bAMD  Ryzen X/b");
    assert_eq!(clean_string("\u{7}Intel\u{9f}Core\u{0}", 50), "IntelCore");
}

#[test]
fn clean_string_trims_white_space() {
    assert_eq!(clean_string("\u{a0}  Ryzen 9  \u{3000}", 50), "Ryzen 9");
    assert_eq!(clean_string("   ", 10), "");
    assert_eq!(clean_string("", 10), "");
}

#[test]
fn clean_string_cuts_to_max_bytes() {
    assert_eq!(clean_string("AMD Ryzen 9 7950X 16-Core Processor", 9), "AMD Ryzen");
    assert_eq!(clean_string("abc", 3), "abc");
    assert_eq!(clean_string("abcd", 0), "");
    // the cut may leave white space at the end
    assert_eq!(clean_string("ab cd", 3), "ab ");
}

#[test]
fn clean_string_cut_inside_a_character_is_refused() {
    // "é" takes two bytes: a cut after one byte would split it
    assert!(!clean_string_fits("é", 1));
    assert!(clean_string_fits("é", 2));
    assert_eq!(clean_string("é", 2), "é");
    assert!(clean_string_fits("aé", 1));
    assert_eq!(clean_string("aé", 1), "a");
    assert!(!clean_string_fits("a€b", 2));
    assert!(clean_string_fits("a€b", 4));
    assert_eq!(clean_string("a€b", 4), "a€");
}

#[test]
fn trim_follows_unicode_white_space() {
    let t: String = trim_chars(&v("\u{2003} x y \u{85}")).into_iter().collect();
    assert_eq!(t, "x y");
    let t: String = trim_chars(&v("\u{200b}x")).into_iter().collect();
    assert_eq!(t, "\u{200b}x");
}

#[test]
fn searching_in_text() {
    let h = v("Intel Corporation Raptor Lake");
    assert!(contains_str(&h, "Raptor"));
    assert!(!contains_str(&h, "AMD"));
    assert!(contains_str(&h, ""));
    assert!(starts_with_str(&h, "Intel"));
    assert!(ends_with_str(&h, "Lake"));
    assert_eq!(find_chars(&h, &v("Corporation")), Some(6));
    assert_eq!(find_chars(&h, &v("zz")), None);
    assert_eq!(chars_of("héllo"), v("héllo"));
}

#[test]
fn lines_like_str_lines() {
    for s in ["a\nb", "a\r\nb\n", "", "\n", "\n\n", "x\r", "a\r\r\nb", "one"] {
        let ours = strs(&split_lines(&v(s)));
        let std_lines: Vec<String> = s.lines().map(|l| l.to_string()).collect();
        assert_eq!(ours, std_lines, "lines of {:?}", s);
    }
}

#[test]
fn split_like_str_split() {
    for s in ["a,b,,c", "", ",", "abc", "a,"] {
        let ours = strs(&split_at_char(&v(s), ','));
        let std_split: Vec<String> = s.split(',').map(|l| l.to_string()).collect();
        assert_eq!(ours, std_split, "split of {:?}", s);
    }
}

#[test]
fn words_like_split_whitespace() {
    for s in ["MemTotal:  32768 kB", "", "   ", " a\tb\u{3000}c ", "x"] {
        let ours = strs(&split_words(&v(s)));
        let std_words: Vec<String> = s.split_whitespace().map(|l| l.to_string()).collect();
        assert_eq!(ours, std_words, "words of {:?}", s);
    }
}

#[test]
fn parse_like_str_parse() {
    for s in ["0", "42", "+7", "-7", "+", "", " 1", "1 ", "18446744073709551615", "18446744073709551616", "4294967295", "4294967296", "00012", "1a", "٣"] {
        assert_eq!(parse_u64(&v(s)), s.parse::<u64>().ok(), "u64 of {:?}", s);
        assert_eq!(parse_u32(&v(s)), s.parse::<u32>().ok(), "u32 of {:?}", s);
        assert_eq!(parse_usize(&v(s)), s.parse::<usize>().ok(), "usize of {:?}", s);
    }
}

#[test]
fn trimming_prefixes_and_quotes() {
    let t: String = trim_start_matches_chars(&v("DRIVER=DRIVER=i915"), &v("DRIVER=")).into_iter().collect();
    assert_eq!(t, "DRIVER=DRIVER=i915".trim_start_matches("DRIVER="));
    let t: String = trim_start_matches_chars(&v("abc"), &v("")).into_iter().collect();
    assert_eq!(t, "abc");
    let t: String = trim_char_chars(&v("\"\"Arch Linux\""), '"').into_iter().collect();
    assert_eq!(t, "Arch Linux");
    let t: String = trim_char_chars(&v("\"\""), '"').into_iter().collect();
    assert_eq!(t, "");
}

#[test]
fn removing_every_occurrence() {
    let cases = [
        ("ASUSTeK Computer Inc.", " Inc."),
        ("Gigabyte Technology Co., Ltd.", " Technology Co., Ltd."),
        ("aaa", "aa"),
        ("abc", ""),
        (" Inc. Inc.", " Inc."),
    ];
    for (s, p) in cases {
        let ours: String = remove_all_chars(&v(s), &v(p)).into_iter().collect();
        let expected = if p.is_empty() { s.to_string() } else { s.replace(p, "") };
        assert_eq!(ours, expected, "{:?} without {:?}", s, p);
    }
}
