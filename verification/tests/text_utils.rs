use winforge::text::{
    chars_of, contains, find_error_line, int_to_decimal, is_whitespace, split_words, trimmed,
    distinct,
};

fn chars(s: &str) -> Vec<char> {
    s.chars().collect()
}

#[test]
fn trim_removes_unicode_white_space_at_both_ends() {
    assert_eq!(trimmed("  \t hello world \r\n"), "hello world");
    assert_eq!(trimmed("\u{3000}\u{A0}x\u{2028}"), "x");
    assert_eq!(trimmed("   "), "");
    assert_eq!(trimmed(""), "");
    assert_eq!(trimmed("a b"), "a b");
}

#[test]
fn trim_agrees_with_std() {
    for s in ["  x ", "\u{85}y\u{1680}", "\u{200B}z\u{200B}", " \u{202F}mid dle\u{205F} "] {
        assert_eq!(trimmed(s), s.trim());
    }
}

#[test]
fn whitespace_matches_std() {
    for u in 0u32..0x3100 {
        if let Some(c) = char::from_u32(u) {
            assert_eq!(is_whitespace(c), c.is_whitespace(), "{:#x}", u);
        }
    }
}

#[test]
fn chars_of_keeps_every_character() {
    assert_eq!(chars_of("aé😀"), vec!['a', 'é', '😀']);
}

#[test]
fn contains_finds_patterns() {
    assert!(contains(&chars("an error here"), &chars("error")));
    assert!(!contains(&chars("an Err here"), &chars("error")));
    assert!(contains(&chars("abc"), &chars("")));
    assert!(!contains(&chars("ab"), &chars("abc")));
}

#[test]
fn words_split_on_white_space() {
    let ws = split_words(&chars("  Name   Id\tVersion\n  Git  Git.Git 2.4 "));
    assert_eq!(ws, vec!["Name", "Id", "Version", "Git", "Git.Git", "2.4"]);
    assert!(split_words(&chars(" \n\t ")).is_empty());
}

#[test]
fn distinct_keeps_first_occurrences() {
    let ws = vec!["b".to_string(), "a".to_string(), "b".to_string(), "c".to_string(), "a".to_string()];
    assert_eq!(distinct(ws), vec!["b", "a", "c"]);
}

#[test]
fn decimal_form_of_integers() {
    assert_eq!(int_to_decimal(0), "0");
    assert_eq!(int_to_decimal(7), "7");
    assert_eq!(int_to_decimal(-1978335189), "-1978335189");
    assert_eq!(int_to_decimal(i32::MIN), i32::MIN.to_string());
    assert_eq!(int_to_decimal(i32::MAX), i32::MAX.to_string());
}

#[test]
fn first_error_line_follows_std_lines() {
    let text = "Found Git\r\nDownloading\r\nInstaller failed with exit code: 0x80070005\r\nmore error";
    let v = chars(text);
    let (lo, hi) = find_error_line(&v).unwrap();
    let line: String = v[lo..hi].iter().collect();
    assert_eq!(line, "Installer failed with exit code: 0x80070005");
    assert_eq!(find_error_line(&chars("all good\nfine\n")), None);
    let (lo, hi) = find_error_line(&chars("ok\nlast Error\r")).unwrap();
    assert_eq!((lo, hi), (3, 14));
}

#[test]
fn error_line_search_agrees_with_std_lines() {
    let samples = [
        "a\r\nb error\r\n",
        "x\rError y\n",
        "\n\n0x1\n",
        "nothing\r",
        "tail failed\r",
        "",
        "\r\n\r\nfailed\r\n\r\n",
    ];
    for text in samples {
        let expected = text.lines().find(|l| {
            l.contains("0x") || l.contains("error") || l.contains("failed") || l.contains("Error")
        });
        let v = chars(text);
        let got = find_error_line(&v).map(|(lo, hi)| v[lo..hi].iter().collect::<String>());
        assert_eq!(got.as_deref(), expected, "{:?}", text);
    }
}
