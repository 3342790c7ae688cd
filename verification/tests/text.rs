use tempsystem::text::{
    char_is_space, count_words, decimal_text, ends_with, escape, join, same_text, split_words,
};

#[test]
fn split_words_matches_split_whitespace() {
    let samples = [
        "",
        " ",
        "git",
        "git  base-devel\tvim\n",
        "  leading and trailing  ",
        "a\u{a0}b\u{2003}c\u{3000}d",
        "tab\tsep\u{85}next\u{1680}x\u{2028}y\u{2029}z\u{202f}w\u{205f}v",
        "zero\u{200b}width",
    ];
    for s in samples {
        let expected: Vec<String> = s.split_whitespace().map(|w| w.to_string()).collect();
        assert_eq!(split_words(s), expected);
        assert_eq!(count_words(s), expected.len());
    }
}

#[test]
fn split_words_exact_values() {
    assert_eq!(split_words("git  base-devel\tvim\n"), vec!["git", "base-devel", "vim"]);
    assert_eq!(split_words("   "), Vec::<String>::new());
    assert_eq!(count_words("one two  three"), 3);
}

#[test]
fn char_is_space_agrees_with_std_on_every_char() {
    let mut n: u32 = 0;
    while n <= 0x10FFFF {
        if let Some(c) = char::from_u32(n) {
            assert_eq!(char_is_space(c), c.is_whitespace());
        }
        n += 1;
    }
}

#[test]
fn escape_matches_escape_default() {
    let samples = [
        "",
        "ls -la",
        "echo \"hi\" 'there'",
        "tab\there\r\n",
        "back\\slash",
        "caf\u{e9} \u{1f600} \u{0}\u{7f}\u{10ffff}",
        "~ !",
    ];
    for s in samples {
        assert_eq!(escape(s), s.escape_default().to_string());
    }
}

#[test]
fn escape_exact_values() {
    assert_eq!(escape("a\"b"), "a\\\"b");
    assert_eq!(escape("\u{e9}"), "\\u{e9}");
    assert_eq!(escape("\u{0}"), "\\u{0}");
    assert_eq!(escape("x\ny"), "x\\ny");
}

#[test]
fn join_puts_the_separator_between_parts() {
    let parts = vec!["echo".to_string(), "a".to_string(), "b".to_string()];
    assert_eq!(join(&parts, " "), "echo a b");
    assert_eq!(join(&Vec::new(), " "), "");
    assert_eq!(join(&vec!["one".to_string()], ", "), "one");
    assert_eq!(join(&vec!["".to_string(), "".to_string()], "-"), "-");
}

#[test]
fn decimal_text_matches_to_string() {
    for n in [0i64, 1, 9, 10, 127, 255, -1, -10, 4096, i64::MAX, i64::MIN, i64::MIN + 1] {
        assert_eq!(decimal_text(n), n.to_string());
    }
    assert_eq!(decimal_text(-42), "-42");
}

#[test]
fn suffix_and_equality_tests() {
    assert!(ends_with("Download complete", " complete"));
    assert!(!ends_with("complete", " complete"));
    assert!(!ends_with("Downloading", " complete"));
    assert!(same_text("latest", "latest"));
    assert!(!same_text("latest", "latest "));
    assert!(!same_text("latesu", "latest"));
}
