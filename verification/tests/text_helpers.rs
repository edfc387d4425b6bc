use vlog::text::{
    ascii_lowercase, chars_of, decimal, extension, file_name, file_stem, has_prefix, has_substring,
    has_suffix, is_whitespace, join, join_path, replace_str, split_at_char, split_whitespace,
    str_eq, string_of, strip_leading, strip_trailing, take_before, trim,
};

fn v(s: &str) -> Vec<char> {
    s.chars().collect()
}

fn s(v: Vec<char>) -> String {
    v.into_iter().collect()
}

#[test]
fn strings_and_chars_convert_both_ways() {
    assert_eq!(chars_of("aあ𝄞"), vec!['a', 'あ', '𝄞']);
    assert_eq!(string_of(&vec!['a', 'あ', '𝄞']), "aあ𝄞");
    assert_eq!(chars_of(""), Vec::<char>::new());
    assert!(str_eq("abc", "abc"));
    assert!(!str_eq("abc", "abd"));
    assert!(!str_eq("abc", "ab"));
}

#[test]
fn substring_prefix_suffix() {
    assert!(has_substring(&v("hello"), &v("ell")));
    assert!(has_substring(&v("hello"), &v("")));
    assert!(has_substring(&v("hello"), &v("hello")));
    assert!(has_substring(&v("hello"), &v("lo")));
    assert!(!has_substring(&v("hello"), &v("hellox")));
    assert!(!has_substring(&v("hello"), &v("xl")));
    assert!(has_suffix(&v("a.wav"), &v(".wav")));
    assert!(!has_suffix(&v("wav"), &v(".wav")));
    assert!(has_prefix(&v("/mnt/c"), &v("/mnt/")));
    assert!(!has_prefix(&v("/mn"), &v("/mnt/")));
}

#[test]
fn whitespace_is_unicode_white_space() {
    for c in ['\t', '\n', '\u{b}', '\u{c}', '\r', ' ', '\u{85}', '\u{a0}', '\u{1680}', '\u{2000}', '\u{200a}', '\u{2028}', '\u{2029}', '\u{202f}', '\u{205f}', '\u{3000}'] {
        assert!(is_whitespace(c));
        assert!(c.is_whitespace());
    }
    for c in ['a', '\u{200b}', '\u{feff}', '0', '\u{8}', '\u{e}', '\u{1f}', '\u{200b}'] {
        assert_eq!(is_whitespace(c), c.is_whitespace());
    }
    let mut n = 0u32;
    while n < 0x3100 {
        if let Some(c) = char::from_u32(n) {
            assert_eq!(is_whitespace(c), c.is_whitespace());
        }
        n += 1;
    }
}

#[test]
fn trim_split_join() {
    assert_eq!(s(trim(&v("  a b \n"))), "a b");
    assert_eq!(s(trim(&v("   "))), "");
    assert_eq!(s(trim(&v(""))), "");
    assert_eq!(s(trim(&v("x"))), "x");
    let words: Vec<String> = split_whitespace(&v(" a  bb\tc ")).into_iter().map(s).collect();
    assert_eq!(words, vec!["a", "bb", "c"]);
    assert!(split_whitespace(&v("  ")).is_empty());
    let parts = vec![v("a"), v(""), v("c")];
    assert_eq!(s(join(&parts, &v(", "))), "a, , c");
    assert_eq!(s(join(&Vec::new(), &v(","))), "");
    assert_eq!(s(join(&vec![v("x")], &v(","))), "x");
    let pieces: Vec<String> = split_at_char(&v("a,,b,"), ',').into_iter().map(s).collect();
    assert_eq!(pieces, vec!["a", "", "b", ""]);
}

#[test]
fn replace_matches_std() {
    for (text, from, to) in [("aaa", "aa", "b"), ("abcabc", "bc", "X"), ("abc", "", "X"), ("", "a", "b"), ("{a}{a}", "{a}", "{a}{a}"), ("xyz", "xyz", "")] {
        let expect = if from.is_empty() { text.to_string() } else { text.replace(from, to) };
        assert_eq!(replace_str(text, from, to), expect);
    }
}

#[test]
fn strip_leading_and_trailing_copies() {
    assert_eq!(s(strip_trailing(&v("a.exe.exe"), &v(".exe"))), "a");
    assert_eq!(s(strip_trailing(&v("a.exe"), &v(""))), "a.exe");
    assert_eq!(s(strip_leading(&v("ababc"), &v("ab"))), "c");
    assert_eq!(s(strip_leading(&v("abc"), &v("x"))), "abc");
}

#[test]
fn decimal_digits() {
    assert_eq!(s(decimal(0)), "0");
    assert_eq!(s(decimal(9)), "9");
    assert_eq!(s(decimal(10)), "10");
    assert_eq!(s(decimal(1234567890)), "1234567890");
    assert_eq!(s(decimal(u64::MAX)), "18446744073709551615");
}

#[test]
fn path_parts() {
    assert_eq!(s(file_name(&v("a/b/c.txt"))), "c.txt");
    assert_eq!(s(file_name(&v("c.txt"))), "c.txt");
    assert_eq!(s(file_name(&v("a\\b\\c.txt"))), "c.txt");
    assert_eq!(s(file_name(&v("a/"))), "");
    assert_eq!(extension(&v("a/b.tar.gz")).map(s), Some("gz".to_string()));
    assert_eq!(extension(&v("a/.bashrc")).map(s), None);
    assert_eq!(extension(&v("a.d/b")).map(s), None);
    assert_eq!(extension(&v("a/b.")).map(s), Some("".to_string()));
    assert_eq!(s(file_stem(&v("a/b.tar.gz"))), "b.tar");
    assert_eq!(s(file_stem(&v("a/.bashrc"))), ".bashrc");
    assert_eq!(s(file_stem(&v("a/b"))), "b");
    assert_eq!(s(take_before(&v("2024_x_y"), '_')), "2024");
    assert_eq!(s(take_before(&v("2024"), '_')), "2024");
    assert_eq!(join_path("a", "b"), "a/b");
    assert_eq!(join_path("a/", "b"), "a/b");
    assert_eq!(join_path("", "b"), "b");
}

#[test]
fn ascii_lowercase_touches_ascii_capitals_only() {
    assert_eq!(s(ascii_lowercase(&v("WaV.ÄZ@[あ"))), "wav.Äz@[あ");
    assert_eq!("WaV.ÄZ@[あ".to_ascii_lowercase(), "wav.Äz@[あ");
}
